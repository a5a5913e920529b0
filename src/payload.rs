use vstd::prelude::*;

verus! {

/// Abstract value of a [`Payload`]: its two fields as character sequences.
pub struct PayloadModel {
    pub mode: Seq<char>,
    pub message: Seq<char>,
}

/// The structured message delivered to the foreground layer.
pub struct Payload {
    /// Coarse classification tag of the input.
    pub mode: String,
    /// Human-readable or symbolic description of the input.
    pub message: String,
}

impl View for Payload {
    type V = PayloadModel;

    open spec fn view(&self) -> PayloadModel {
        PayloadModel { mode: self.mode@, message: self.message@ }
    }
}

impl Payload {
    /// Builds a payload from its mode and message, copying both.
    pub fn new(mode: &str, message: &str) -> (r: Payload)
        ensures
            r@ == (PayloadModel { mode: mode@, message: message@ }),
    {
        Payload { mode: mode.to_owned(), message: message.to_owned() }
    }

    /// The mode tag, borrowed.
    pub fn mode(&self) -> (r: &str)
        ensures
            r@ == self.mode@,
    {
        self.mode.as_str()
    }

    /// The message, borrowed.
    pub fn message(&self) -> (r: &str)
        ensures
            r@ == self.message@,
    {
        self.message.as_str()
    }
}

impl Clone for Payload {
    fn clone(&self) -> (r: Payload)
        ensures
            r@ == self@,
    {
        Payload { mode: self.mode.clone(), message: self.message.clone() }
    }
}

} // verus!
