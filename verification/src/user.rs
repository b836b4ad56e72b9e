//! User records as the credential repository holds them, and the filtered
//! form that may leave the orchestrator (never carrying the password hash).
use crate::system::current_timestamp;
use crate::system::fresh_uuid;
use vstd::prelude::*;

verus! {

/// The mathematical content of a user record: identifiers and strings as
/// sequences, timestamps as Unix seconds.
pub struct UserView {
    pub id: u128,
    pub email: Seq<char>,
    pub password: Seq<char>,
    pub created_at: Option<i64>,
    pub updated_at: Option<i64>,
}

/// A user record: identity, e-mail, password hash and timestamps. The
/// orchestrator only ever reads these; the repository creates them.
#[derive(Debug)]
pub struct User {
    pub id: u128,
    pub email: String,
    pub password: String,
    pub created_at: Option<i64>,
    pub updated_at: Option<i64>,
}

impl View for User {
    type V = UserView;

    open spec fn view(&self) -> UserView {
        UserView {
            id: self.id,
            email: self.email@,
            password: self.password@,
            created_at: self.created_at,
            updated_at: self.updated_at,
        }
    }
}

impl User {
    /// A fresh record with a random identity and the current time as both
    /// timestamps.
    pub fn new(email: &str, password: &str) -> (r: User)
        ensures
            r@.email == email@,
            r@.password == password@,
            r@.created_at is Some,
            r@.updated_at == r@.created_at,
    {
        let now = current_timestamp();
        User {
            id: fresh_uuid(),
            email: email.to_owned(),
            password: password.to_owned(),
            created_at: Some(now),
            updated_at: Some(now),
        }
    }

    /// A field-for-field copy.
    pub fn duplicate(&self) -> (r: User)
        ensures
            r@ == self@,
    {
        User {
            id: self.id,
            email: self.email.clone(),
            password: self.password.clone(),
            created_at: self.created_at,
            updated_at: self.updated_at,
        }
    }
}

/// A user record with the password hash removed: the only form in which a
/// user leaves the orchestrator.
#[derive(Debug)]
pub struct FilteredUser {
    pub id: u128,
    pub email: String,
    pub created_at: Option<i64>,
    pub updated_at: Option<i64>,
}

/// The mathematical content of a filtered user record.
pub struct FilteredUserView {
    pub id: u128,
    pub email: Seq<char>,
    pub created_at: Option<i64>,
    pub updated_at: Option<i64>,
}

impl View for FilteredUser {
    type V = FilteredUserView;

    open spec fn view(&self) -> FilteredUserView {
        FilteredUserView {
            id: self.id,
            email: self.email@,
            created_at: self.created_at,
            updated_at: self.updated_at,
        }
    }
}

/// The filtered image of a user record: every field but the password hash.
pub open spec fn filtered_of(u: UserView) -> FilteredUserView {
    FilteredUserView { id: u.id, email: u.email, created_at: u.created_at, updated_at: u.updated_at }
}

impl FilteredUser {
    /// Drops the password hash from a record; everything else is kept.
    pub fn from_user(user: &User) -> (r: Self)
        ensures
            r@ == filtered_of(user@),
    {
        Self {
            id: user.id,
            email: user.email.clone(),
            created_at: user.created_at,
            updated_at: user.updated_at,
        }
    }
}

/// A user identity, carried on its own for session re-validation.
#[derive(Debug, Clone, Copy, PartialEq, Eq, Structural)]
pub struct UserId(u128);

impl UserId {
    /// The identity's 128-bit value.
    pub closed spec fn value(&self) -> u128 {
        self.0
    }

    pub fn new(id: u128) -> (r: UserId)
        ensures
            r.value() == id,
    {
        UserId(id)
    }

    pub fn get(&self) -> (r: u128)
        ensures
            r == self.value(),
    {
        self.0
    }
}

} // verus!
