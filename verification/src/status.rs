//! Response status marker used by the boundary's response envelope.
use vstd::prelude::*;

verus! {

/// Whether a response reports success or failure.
#[derive(Debug, PartialEq, Eq, Structural)]
pub enum Status {
    Success,
    Failure,
}

impl Status {
    /// The wire word for the status.
    pub fn raw_value(&self) -> (r: String)
        ensures
            self is Success ==> r@ == "success"@,
            self is Failure ==> r@ == "failure"@,
    {
        match self {
            Status::Success => "success".to_owned(),
            Status::Failure => "failure".to_owned(),
        }
    }
}

} // verus!
