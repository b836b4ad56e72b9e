//! What a successful login hands back to the boundary.
use vstd::prelude::*;

verus! {

/// Both freshly signed tokens and their lifetimes in minutes, for the
/// boundary to carry however it likes.
#[derive(Debug)]
pub struct LoginResponse {
    pub access_token: String,
    pub access_token_max_age: i64,
    pub refresh_token: String,
    pub refresh_token_max_age: i64,
}

} // verus!
