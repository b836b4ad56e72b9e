//! Validated plaintext-password wrapper: trimmed, never empty, never stored.
use crate::text::trim_of;
use crate::text::trim_str;
use vstd::prelude::*;

verus! {

/// A plaintext password that has been trimmed and checked to be non-empty.
/// It lives only for the duration of a register or login call.
#[derive(Debug)]
pub struct UserPassword(String);

/// The rejection raised when a password is empty or whitespace-only.
#[derive(Clone, Debug, PartialEq, Eq, Structural)]
pub struct UserPasswordEmptyError;

impl View for UserPassword {
    type V = Seq<char>;

    closed spec fn view(&self) -> Seq<char> {
        self.0@
    }
}

impl UserPassword {
    /// A valid password is non-empty.
    pub open spec fn wf(&self) -> bool {
        self@.len() > 0
    }

    /// Trims `raw`; rejects the result exactly when it is empty.
    pub fn new(raw: &str) -> (r: Result<Self, UserPasswordEmptyError>)
        ensures
            r is Ok <==> trim_of(raw@).len() > 0,
            r matches Ok(p) ==> p@ == trim_of(raw@) && p.wf(),
    {
        let trimmed = trim_str(raw);
        if trimmed.is_empty() {
            Err(UserPasswordEmptyError)
        } else {
            Ok(UserPassword(trimmed.to_owned()))
        }
    }

    /// The underlying plaintext.
    pub fn get(&self) -> (r: &str)
        ensures
            r@ == self@,
    {
        self.0.as_str()
    }
}

} // verus!
