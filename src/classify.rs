use vstd::prelude::*;
use crate::payload::{Payload, PayloadModel};

verus! {

/// Input as the capture source reports it: a mode and a message.
pub struct RawInput {
    pub mode: Seq<char>,
    pub message: Seq<char>,
}

/// Input is recognized when the capture source gave it a mode tag.
pub open spec fn recognized(mode: Seq<char>) -> bool {
    mode.len() > 0
}

/// What classification makes of one input under a fallback policy: a
/// recognized input passes through unchanged; an unrecognized one is dropped
/// when there is no fallback tag, and forwarded under that tag otherwise.
pub open spec fn classify_spec(
    fallback: Option<Seq<char>>,
    mode: Seq<char>,
    message: Seq<char>,
) -> Option<PayloadModel> {
    if recognized(mode) {
        Some(PayloadModel { mode, message })
    } else {
        match fallback {
            Some(tag) => Some(PayloadModel { mode: tag, message }),
            None => None,
        }
    }
}

/// The payloads that a sequence of inputs classifies to, in input order,
/// leaving out the inputs that are dropped.
pub open spec fn classify_all(fallback: Option<Seq<char>>, inputs: Seq<RawInput>) -> Seq<PayloadModel>
    decreases inputs.len(),
{
    if inputs.len() == 0 {
        Seq::empty()
    } else {
        let rest = classify_all(fallback, inputs.drop_first());
        match classify_spec(fallback, inputs[0].mode, inputs[0].message) {
            Some(p) => seq![p] + rest,
            None => rest,
        }
    }
}

/// Classification policy for captured input.
pub struct Classifier {
    /// Tag under which unrecognized input is forwarded; `None` drops it.
    pub fallback: Option<String>,
}

impl Classifier {
    /// The fallback tag as a character sequence, if any.
    pub open spec fn fallback_model(&self) -> Option<Seq<char>> {
        match self.fallback {
            Some(tag) => Some(tag@),
            None => None,
        }
    }

    /// A classifier that drops unrecognized input.
    pub fn dropping() -> (r: Classifier)
        ensures
            r.fallback_model() == None::<Seq<char>>,
    {
        Classifier { fallback: None }
    }

    /// A classifier that forwards unrecognized input under `tag`.
    pub fn forwarding(tag: &str) -> (r: Classifier)
        ensures
            r.fallback_model() == Some(tag@),
    {
        Classifier { fallback: Some(tag.to_owned()) }
    }

    /// Classifies one input into a payload, or `None` when it is dropped.
    /// Pure: the result depends on the policy and the input alone.
    pub fn classify(&self, mode: &str, message: &str) -> (r: Option<Payload>)
        ensures
            match r {
                Some(p) => classify_spec(self.fallback_model(), mode@, message@) == Some(p@),
                None => classify_spec(self.fallback_model(), mode@, message@) is None,
            },
    {
        if !mode.is_empty() {
            Some(Payload::new(mode, message))
        } else {
            match &self.fallback {
                Some(tag) => Some(Payload::new(tag.as_str(), message)),
                None => None,
            }
        }
    }
}

impl Clone for Classifier {
    fn clone(&self) -> (r: Classifier)
        ensures
            r.fallback_model() == self.fallback_model(),
    {
        match &self.fallback {
            Some(tag) => Classifier { fallback: Some(tag.clone()) },
            None => Classifier { fallback: None },
        }
    }
}

/// Classification is deterministic: two identical input sequences, under
/// one policy, classify to identical payload sequences, and two identical
/// inputs anywhere in a sequence classify to identical payloads.
pub proof fn lemma_classification_deterministic(
    fallback: Option<Seq<char>>,
    a: Seq<RawInput>,
    b: Seq<RawInput>,
)
    requires
        a == b,
    ensures
        classify_all(fallback, a) == classify_all(fallback, b),
        forall|i: int, j: int|
            0 <= i < a.len() && 0 <= j < a.len() && a[i] == a[j] ==> classify_spec(
                fallback,
                a[i].mode,
                a[i].message,
            ) == classify_spec(fallback, a[j].mode, a[j].message),
{
}

} // verus!
