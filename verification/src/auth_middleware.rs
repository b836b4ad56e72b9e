//! The authenticated identity handed to downstream request handling.
use crate::user::User;
use vstd::prelude::*;

verus! {

/// Constructed only by a successful authentication: the user behind the
/// request and the identifier of the access token that proved it.
#[derive(Debug)]
pub struct AuthMiddleware {
    pub user: User,
    pub access_token_uuid: u128,
}

impl AuthMiddleware {
    pub fn new(user: User, access_token_uuid: u128) -> (r: AuthMiddleware)
        ensures
            r.user == user,
            r.access_token_uuid == access_token_uuid,
    {
        AuthMiddleware { user, access_token_uuid }
    }
}

} // verus!
