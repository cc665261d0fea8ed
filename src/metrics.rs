use vstd::prelude::*;
use crate::error::RelayError;

verus! {

/// The label under which a handled request is counted.
#[derive(Clone, Copy, Debug, PartialEq, Eq, Structural)]
pub enum Outcome {
    Success,
    Failure,
}

/// Every failure counts as one, whatever the stage that failed.
pub open spec fn outcome_for(ok: bool) -> Outcome {
    if ok {
        Outcome::Success
    } else {
        Outcome::Failure
    }
}

pub open spec fn label_text(o: Outcome) -> Seq<char> {
    match o {
        Outcome::Success => "success"@,
        Outcome::Failure => "error"@,
    }
}

impl Outcome {
    /// The outcome of a handled request.
    pub fn of(r: &Result<(), RelayError>) -> (o: Outcome)
        ensures
            o == outcome_for(r is Ok),
    {
        match r {
            Ok(()) => Outcome::Success,
            Err(_) => Outcome::Failure,
        }
    }

    /// The value of the `status` label of the request counter.
    pub fn label(&self) -> (r: &'static str)
        ensures
            r@ == label_text(*self),
    {
        proof {
            reveal_strlit("success");
            reveal_strlit("error");
        }
        match self {
            Outcome::Success => "success",
            Outcome::Failure => "error",
        }
    }
}

} // verus!
