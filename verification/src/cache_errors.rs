//! Failure taxonomy of the session cache port.
use vstd::prelude::*;

verus! {

/// Why a cache operation failed. `Invalid` is a normal outcome — the token
/// is absent, expired or owned by someone else — while `Save` and `Unknown`
/// are infrastructure faults.
#[derive(Debug)]
pub enum CacheOperationError {
    Save,
    Invalid { reason: String },
    Unknown,
}

} // verus!
