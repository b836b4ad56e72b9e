//! Refresh request, response, and error taxonomy.
use crate::auth_repo_errors::AuthRepositoryError;
use crate::cache_errors::CacheOperationError;
use vstd::prelude::*;

verus! {

/// A refresh request: the raw refresh token string as presented.
#[derive(Debug)]
pub struct RefreshRequest {
    token: Token,
}

#[derive(Debug)]
struct Token(String);

impl RefreshRequest {
    /// The raw token text.
    pub closed spec fn token_text(&self) -> Seq<char> {
        self.token.0@
    }

    pub fn new(token: String) -> (r: RefreshRequest)
        ensures
            r.token_text() == token@,
    {
        RefreshRequest { token: Token(token) }
    }

    pub fn get_token(&self) -> (r: &str)
        ensures
            r@ == self.token_text(),
    {
        self.token.0.as_str()
    }
}

/// What a successful refresh hands back: only the new access token; the
/// refresh token keeps counting toward its own lifetime.
#[derive(Debug)]
pub struct RefreshResponse {
    pub access_token: String,
    pub access_token_max_age: i64,
}

/// Why a refresh failed: the presented token is no longer acceptable, no
/// token was presented at all, or an internal fault occurred.
#[derive(Debug)]
pub enum RefreshTokenError {
    InvalidCredentials { reason: String },
    MissingCredentials,
    Unknown,
}

impl RefreshTokenError {
    /// Translates a repository error: a credential failure keeps its
    /// reason, everything else is flattened to an opaque internal error.
    pub fn from_repository_error(value: AuthRepositoryError) -> (r: Self)
        ensures
            r is InvalidCredentials <==> value is InvalidCredentials,
            r is InvalidCredentials || r is Unknown,
    {
        match value {
            AuthRepositoryError::InvalidCredentials { reason } => {
                RefreshTokenError::InvalidCredentials { reason }
            },
            _ => RefreshTokenError::Unknown,
        }
    }

    /// Translates a cache error: the normal revoked-or-expired outcome
    /// keeps its reason, a cache fault is an opaque internal error.
    pub fn from_cache_error(value: CacheOperationError) -> (r: Self)
        ensures
            r is InvalidCredentials <==> value is Invalid,
            r is InvalidCredentials || r is Unknown,
    {
        match value {
            CacheOperationError::Invalid { reason } => {
                RefreshTokenError::InvalidCredentials { reason }
            },
            _ => RefreshTokenError::Unknown,
        }
    }
}

} // verus!
