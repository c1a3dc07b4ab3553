//! Errors that request handling reports to its caller.
use vstd::prelude::*;

verus! {

/// An error raised while handling a request; the caller turns it into an
/// error response.
pub enum ApiError {
    /// The request is malformed or breaks a rule of the court's process.
    BadRequest(String),
    /// The addressed record does not exist.
    NotFound(String),
    /// Something went wrong on the server side.
    Internal(String),
    /// The storage layer failed.
    StorageError(String),
    /// The input could not be decoded.
    InvalidInput(String),
    /// A request body could not be deserialized.
    SerializationError(String),
    /// A path or query value is not a well-formed UUID.
    InvalidUuid,
}

/// `e` is a bad-request error carrying exactly `msg`.
pub open spec fn is_bad_request(e: ApiError, msg: Seq<char>) -> bool {
    e matches ApiError::BadRequest(m) && m@ == msg
}

/// `e` is a not-found error carrying exactly `msg`.
pub open spec fn is_not_found(e: ApiError, msg: Seq<char>) -> bool {
    e matches ApiError::NotFound(m) && m@ == msg
}

/// `e` is an internal error carrying exactly `msg`.
pub open spec fn is_internal(e: ApiError, msg: Seq<char>) -> bool {
    e matches ApiError::Internal(m) && m@ == msg
}

/// A bad-request error with the given message.
pub fn bad_request(msg: &str) -> (e: ApiError)
    ensures
        is_bad_request(e, msg@),
{
    ApiError::BadRequest(String::from_str(msg))
}

/// A not-found error with the given message.
pub fn not_found(msg: &str) -> (e: ApiError)
    ensures
        is_not_found(e, msg@),
{
    ApiError::NotFound(String::from_str(msg))
}

/// An internal error with the given message.
pub fn internal(msg: &str) -> (e: ApiError)
    ensures
        is_internal(e, msg@),
{
    ApiError::Internal(String::from_str(msg))
}

} // verus!
