//! Token claim sets and issuance results.
use vstd::prelude::*;

verus! {

/// The claim set carried inside a signed token: subject and token
/// identifier in UUID text form, and the three time claims in Unix seconds.
#[derive(Debug)]
pub struct TokenClaims {
    pub sub: String,
    pub token_uuid: String,
    pub exp: i64,
    pub iat: i64,
    pub nbf: i64,
}

/// The mathematical content of a claim set.
pub struct TokenClaimsView {
    pub sub: Seq<char>,
    pub token_uuid: Seq<char>,
    pub exp: i64,
    pub iat: i64,
    pub nbf: i64,
}

impl View for TokenClaims {
    type V = TokenClaimsView;

    open spec fn view(&self) -> TokenClaimsView {
        TokenClaimsView {
            sub: self.sub@,
            token_uuid: self.token_uuid@,
            exp: self.exp,
            iat: self.iat,
            nbf: self.nbf,
        }
    }
}

/// What issuance or verification hands back: the signed string (after
/// issuance), the token and user identifiers, and the expiry (after
/// issuance).
#[derive(Debug)]
pub struct TokenDetails {
    pub token: Option<String>,
    pub token_uuid: u128,
    pub user_id: u128,
    pub expires_in: Option<i64>,
}

/// One session record to be written to the cache: which token, whose it is,
/// and for how many minutes it lives.
#[derive(Debug)]
pub struct CacheToken {
    pub token_uuid: u128,
    pub user_id: u128,
    pub max_age: i64,
}

impl CacheToken {
    pub fn new(token_uuid: u128, user_id: u128, max_age: i64) -> (r: CacheToken)
        ensures
            r.token_uuid == token_uuid,
            r.user_id == user_id,
            r.max_age == max_age,
    {
        CacheToken { token_uuid, user_id, max_age }
    }
}

} // verus!
