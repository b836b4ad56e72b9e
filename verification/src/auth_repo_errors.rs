//! Failure taxonomy of the credential repository port.
use crate::user_email::UserEmail;
use vstd::prelude::*;

verus! {

/// Why a repository operation failed. `Duplicate` and `InvalidCredentials`
/// are normal outcomes the orchestrator maps to caller-visible errors;
/// `Database` and `Unknown` are infrastructure faults whose reasons stay
/// server-side.
#[derive(Debug)]
pub enum AuthRepositoryError {
    Duplicate { email: UserEmail },
    Database { reason: String },
    InvalidCredentials { reason: String },
    Unknown,
}

} // verus!
