//! Authentication request, the access-token wrapper, the authorization
//! error taxonomy, and the boundary's token-selection rule.
use crate::auth_repo_errors::AuthRepositoryError;
use crate::cache_errors::CacheOperationError;
use vstd::prelude::*;

verus! {

/// An authentication request: the raw access token as presented.
#[derive(Debug)]
pub struct AuthRequest {
    pub access_token: AccessToken,
}

impl AuthRequest {
    pub fn new(access_token: String) -> (r: AuthRequest)
        ensures
            r.access_token@ == access_token@,
    {
        AuthRequest { access_token: AccessToken(access_token) }
    }
}

/// The raw access token string.
#[derive(Debug)]
pub struct AccessToken(String);

impl View for AccessToken {
    type V = Seq<char>;

    closed spec fn view(&self) -> Seq<char> {
        self.0@
    }
}

impl AccessToken {
    pub fn get(&self) -> (r: &str)
        ensures
            r@ == self@,
    {
        self.0.as_str()
    }
}

/// Relies on str::strip_prefix with a string pattern: the remainder after
/// the prefix when the string starts with it, nothing otherwise.
#[verifier::external_body]
fn strip_prefix_str<'a>(s: &'a str, prefix: &str) -> (r: Option<&'a str>)
    ensures
        r is Some <==> (s@.len() >= prefix@.len() && s@.subrange(0, prefix@.len() as int)
            == prefix@),
        r matches Some(rest) ==> rest@ == s@.skip(prefix@.len() as int),
{
    s.strip_prefix(prefix)
}

/// The token carried by an Authorization header value: the remainder after
/// the literal bearer marker, if the value starts with it.
pub fn bearer_token(header_value: &str) -> (r: Option<String>)
    ensures
        r is Some <==> header_value@.len() >= 7 && header_value@.subrange(0, 7) == "Bearer "@,
        r matches Some(t) ==> t@ == header_value@.skip(7),
{
    proof {
        reveal_strlit("Bearer ");
    }
    match strip_prefix_str(header_value, "Bearer ") {
        Some(rest) => Some(rest.to_owned()),
        None => None,
    }
}

/// The boundary's selection rule for the access token: a cookie takes
/// precedence over a bearer header; either may be absent.
pub fn select_access_token(cookie: Option<String>, bearer: Option<String>) -> (r: Option<String>)
    ensures
        cookie is Some ==> r == cookie,
        cookie is None ==> r == bearer,
{
    match cookie {
        Some(c) => Some(c),
        None => bearer,
    }
}

/// Why a request could not be authenticated: the credentials are no longer
/// acceptable (whatever the reason, kept for logs), or an internal fault
/// occurred.
#[derive(Debug)]
pub enum AuthorizationError {
    InvalidCredentials { reason: String },
    Unknown,
}

impl AuthorizationError {
    /// Translates a cache error: the normal revoked-or-expired outcome
    /// keeps its reason, a cache fault is an opaque internal error — a down
    /// cache must not masquerade as a revoked session.
    pub fn from_cache_error(value: CacheOperationError) -> (r: Self)
        ensures
            r is InvalidCredentials <==> value is Invalid,
    {
        match value {
            CacheOperationError::Invalid { reason } => {
                AuthorizationError::InvalidCredentials { reason }
            },
            _ => AuthorizationError::Unknown,
        }
    }

    /// Translates a repository error: a credential failure keeps its
    /// reason, everything else is flattened to an opaque internal error.
    pub fn from_repository_error(value: AuthRepositoryError) -> (r: Self)
        ensures
            r is InvalidCredentials <==> value is InvalidCredentials,
    {
        match value {
            AuthRepositoryError::InvalidCredentials { reason } => {
                AuthorizationError::InvalidCredentials { reason }
            },
            _ => AuthorizationError::Unknown,
        }
    }
}

} // verus!
