//! Password hashing and verification, delegated to the Argon2 primitive.
//!
//! The primitive is treated as a black box with the usual contract of a
//! salted one-way hash: verifying a password against a hash produced from
//! the same password succeeds, and against a hash produced from any other
//! password fails. `password_matches` names that relation so the
//! orchestrator's contracts can be stated over it.
use argon2::PasswordHasher;
use argon2::PasswordVerifier;
use vstd::prelude::*;

verus! {

/// Whether the Argon2 verifier accepts `password` against `hash`. The
/// outcome is a function of the two strings alone: the salt and all hashing
/// parameters are carried inside the hash string itself.
pub uninterp spec fn password_matches(password: Seq<char>, hash: Seq<char>) -> bool;

/// Relies on argon2::Argon2::hash_password with a fresh random salt: on
/// success the returned hash string verifies against exactly the hashed
/// password — the defining property of the hashing primitive, which
/// argon2::Argon2::verify_password implements by recomputing the hash from
/// the parameters and salt stored in the hash string.
#[verifier::external_body]
pub fn hash_password(password: &str) -> (r: Result<String, crate::register_user::PasswordHashingError>)
    ensures
        r matches Ok(h) ==> forall|q: Seq<char>| #[trigger] password_matches(q, h@) <==> q == password@,
{
    let salt = argon2::password_hash::SaltString::generate(&mut rand_core::OsRng);
    match argon2::Argon2::default().hash_password(password.as_bytes(), &salt) {
        Ok(hash) => Ok(hash.to_string()),
        Err(_) => Err(crate::register_user::PasswordHashingError),
    }
}

/// Relies on argon2::Argon2::verify_password: accepts exactly when
/// `password` hashes, under the parameters and salt carried in
/// `hashed_password`, to the digest carried there; a hash string that does
/// not parse is rejected.
#[verifier::external_body]
pub fn is_valid(password: &str, hashed_password: &str) -> (r: bool)
    ensures
        r == password_matches(password@, hashed_password@),
{
    match argon2::PasswordHash::new(hashed_password) {
        Ok(parsed_hash) => {
            argon2::Argon2::default().verify_password(password.as_bytes(), &parsed_hash).is_ok()
        },
        Err(_) => false,
    }
}

} // verus!
