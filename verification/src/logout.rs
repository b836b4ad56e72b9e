//! Logout request and response.
use crate::token_uuid::TokenUuid;
use vstd::prelude::*;

verus! {

/// The confirmation message a logout returns.
#[derive(Debug)]
pub struct LogoutResponse(String);

impl LogoutResponse {
    pub fn new(message: &str) -> (r: LogoutResponse)
        ensures
            r@ == message@,
    {
        LogoutResponse(message.to_owned())
    }

    /// The confirmation text.
    pub fn message(&self) -> (r: &str)
        ensures
            r@ == self@,
    {
        self.0.as_str()
    }
}

impl View for LogoutResponse {
    type V = Seq<char>;

    closed spec fn view(&self) -> Seq<char> {
        self.0@
    }
}

/// A logout request: the identifier of the access token whose session
/// record is to be revoked.
#[derive(Debug)]
pub struct LogoutRequest {
    token_uuid: TokenUuid,
}

impl LogoutRequest {
    /// The identifier being revoked.
    pub closed spec fn token_id(&self) -> u128 {
        self.token_uuid.value()
    }

    pub fn new(token_uuid: u128) -> (r: LogoutRequest)
        ensures
            r.token_id() == token_uuid,
    {
        LogoutRequest { token_uuid: TokenUuid::new(token_uuid) }
    }

    pub fn get_uuid(&self) -> (r: &TokenUuid)
        ensures
            r.value() == self.token_id(),
    {
        &self.token_uuid
    }
}

} // verus!
