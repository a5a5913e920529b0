use vstd::prelude::*;
use vstd::string::StringExecFns;

verus! {

/// The greeting returned to the foreground layer for `name`.
pub open spec fn greeting(name: Seq<char>) -> Seq<char> {
    "Hello, "@ + name + "! You've been greeted from Rust!"@
}

/// Greets `name` on behalf of the foreground layer.
pub fn greet(name: &str) -> (r: String)
    ensures
        r@ == greeting(name@),
{
    let mut s = "Hello, ".to_owned();
    s.append(name);
    s.append("! You've been greeted from Rust!");
    s
}

} // verus!
