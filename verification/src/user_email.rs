//! Validated e-mail wrapper: the raw input is trimmed and must not be empty.
use crate::text::trim_of;
use crate::text::trim_str;
use vstd::prelude::*;

verus! {

/// An e-mail address that has been trimmed and checked to be non-empty.
#[derive(Debug, Clone)]
pub struct UserEmail(String);

/// The rejection raised when an e-mail is empty or whitespace-only.
#[derive(Clone, Debug, PartialEq, Eq, Structural)]
pub struct UserEmailEmptyError;

impl View for UserEmail {
    type V = Seq<char>;

    closed spec fn view(&self) -> Seq<char> {
        self.0@
    }
}

impl UserEmail {
    /// A valid e-mail is non-empty.
    pub open spec fn wf(&self) -> bool {
        self@.len() > 0
    }

    /// Trims `raw`; rejects the result exactly when it is empty.
    pub fn new(raw: &str) -> (r: Result<Self, UserEmailEmptyError>)
        ensures
            r is Ok <==> trim_of(raw@).len() > 0,
            r matches Ok(e) ==> e@ == trim_of(raw@) && e.wf(),
    {
        let trimmed = trim_str(raw);
        if trimmed.is_empty() {
            Err(UserEmailEmptyError)
        } else {
            Ok(UserEmail(trimmed.to_owned()))
        }
    }

    /// The underlying address.
    pub fn get(&self) -> (r: &str)
        ensures
            r@ == self@,
    {
        self.0.as_str()
    }

    /// A copy carrying the same address.
    pub fn duplicate(&self) -> (r: UserEmail)
        ensures
            r@ == self@,
    {
        UserEmail(self.0.clone())
    }
}

} // verus!
