//! The two environment-dependent inputs of the orchestrator: the current
//! time and fresh random identifiers. Both are inherently nondeterministic,
//! so their contracts promise nothing about the values; every caller states
//! what holds whatever comes back.
use vstd::prelude::*;

verus! {

/// Relies on chrono::Utc::now: the current Unix timestamp in seconds.
/// Nothing can be promised of a clock reading.
#[verifier::external_body]
pub fn current_timestamp() -> i64 {
    chrono::Utc::now().timestamp()
}

/// Relies on uuid::Uuid::new_v4: a fresh random version-4 UUID, carried as
/// its 128-bit value. Nothing can be promised of a random draw.
#[verifier::external_body]
pub fn fresh_uuid() -> u128 {
    uuid::Uuid::new_v4().as_u128()
}

} // verus!
