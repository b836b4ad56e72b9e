//! Login request and its error taxonomy.
use crate::auth_repo_errors::AuthRepositoryError;
use crate::user_email::UserEmail;
use crate::user_password::UserPassword;
use vstd::prelude::*;

verus! {

/// A validated login request: a non-empty e-mail and a non-empty plaintext
/// password, both transient.
#[derive(Debug)]
pub struct LoginUserRequest {
    pub email: UserEmail,
    pub password: UserPassword,
}

impl LoginUserRequest {
    pub fn new(email: UserEmail, password: UserPassword) -> (r: LoginUserRequest)
        ensures
            r.email == email,
            r.password == password,
    {
        LoginUserRequest { email, password }
    }
}

/// Why a login failed. A wrong password and an unknown e-mail both surface
/// as the same `InvalidCredentials`, by design: the caller learns nothing
/// about which part was wrong.
#[derive(Debug)]
pub enum LoginUserError {
    InvalidCredentials,
    Unknown,
}

impl LoginUserError {
    /// Translates a repository error: a credential failure stays a
    /// credential failure, everything else is flattened to an opaque
    /// internal error.
    pub fn from_repository_error(value: AuthRepositoryError) -> (r: Self)
        ensures
            r is InvalidCredentials <==> value is InvalidCredentials,
    {
        match value {
            AuthRepositoryError::InvalidCredentials { reason: _ } => {
                LoginUserError::InvalidCredentials
            },
            _ => LoginUserError::Unknown,
        }
    }
}

} // verus!
