//! Registration request, its error taxonomy, and the hashed-password
//! wrapper that can only be built through the hashing primitive.
use crate::security::hash_password;
use crate::security::password_matches;
use crate::user_email::UserEmail;
use crate::user_password::UserPassword;
use vstd::prelude::*;

verus! {

/// A validated registration request: a non-empty e-mail and the hash of a
/// non-empty password.
#[derive(Debug)]
pub struct RegisterUserRequest {
    pub email: UserEmail,
    pub hashed_password: HashedUserPassword,
}

impl RegisterUserRequest {
    pub fn new(email: UserEmail, hashed_password: HashedUserPassword) -> (r: Self)
        ensures
            r.email == email,
            r.hashed_password == hashed_password,
    {
        RegisterUserRequest { email, hashed_password }
    }
}

/// Why a registration failed: the e-mail is already taken, or the
/// repository failed for an internal reason that is not shown to the caller.
#[derive(Debug)]
pub enum RegisterUserError {
    Duplicate { email: UserEmail },
    Unknown,
}

impl RegisterUserError {
    /// Translates a repository error: a duplicate keeps its e-mail, every
    /// other failure is flattened to an opaque internal error.
    pub fn from_repository_error(value: crate::auth_repo_errors::AuthRepositoryError) -> (r: Self)
        ensures
            r is Duplicate <==> value is Duplicate,
            value matches crate::auth_repo_errors::AuthRepositoryError::Duplicate { email }
                ==> r == (RegisterUserError::Duplicate { email }),
    {
        match value {
            crate::auth_repo_errors::AuthRepositoryError::Duplicate { email } => {
                RegisterUserError::Duplicate { email }
            },
            _ => RegisterUserError::Unknown,
        }
    }
}

/// A password hash produced by the hashing primitive; no other constructor
/// exists, so a value of this type always verifies against exactly one
/// password.
#[derive(Debug)]
pub struct HashedUserPassword(String);

/// The rejection raised when the hashing primitive itself fails.
#[derive(Clone, Debug, PartialEq, Eq, Structural)]
pub struct PasswordHashingError;

impl View for HashedUserPassword {
    type V = Seq<char>;

    closed spec fn view(&self) -> Seq<char> {
        self.0@
    }
}

impl HashedUserPassword {
    /// Hashes `password` with the primitive; fails only when the primitive
    /// does. The hash verifies against the hashed password and no other.
    pub fn new(password: UserPassword) -> (r: Result<HashedUserPassword, PasswordHashingError>)
        ensures
            r matches Ok(h) ==> forall|q: Seq<char>|
                #[trigger] password_matches(q, h@) <==> q == password@,
    {
        let hashed_password = match hash_password(password.get()) {
            Ok(h) => h,
            Err(e) => {
                return Err(e);
            },
        };
        Ok(HashedUserPassword(hashed_password))
    }

    /// The hash string, as stored by the repository.
    pub fn get(&self) -> (r: &str)
        ensures
            r@ == self@,
    {
        self.0.as_str()
    }
}

} // verus!
