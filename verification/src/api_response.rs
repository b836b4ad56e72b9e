//! The boundary's response envelope.
use crate::status::Status;
use vstd::prelude::*;

verus! {

/// A response envelope: a status word, and either a data payload or a
/// plain message.
#[derive(Debug)]
pub struct ApiResponse<T> {
    pub status: Status,
    pub data: Option<T>,
    pub message: Option<String>,
}

impl<T> ApiResponse<T> {
    /// A successful envelope around a payload.
    pub fn success(data: T) -> (r: Self)
        ensures
            r.status is Success,
            r.data == Some(data),
            r.message is None,
    {
        ApiResponse { status: Status::Success, data: Some(data), message: None }
    }

    /// A successful envelope around a plain message.
    pub fn success_message(message: String) -> (r: Self)
        ensures
            r.status is Success,
            r.data is None,
            r.message == Some(message),
    {
        ApiResponse { status: Status::Success, data: None, message: Some(message) }
    }
}

} // verus!
