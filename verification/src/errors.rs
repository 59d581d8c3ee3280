//! The error taxonomy of the service and its mapping to HTTP statuses and
//! response bodies.

use vstd::prelude::*;
use vstd::string::*;

verus! {

/// Every failure a request handler can answer with.
///
/// `Conflict` — the store reporting a duplicate short id — is deliberately not
/// here: it is absorbed and retried inside the creation workflow and never
/// escapes to a response (see `crate::creation`).
#[derive(Clone, Copy, Debug, PartialEq, Eq, Structural)]
pub enum ApiError {
    /// Malformed target URL; user-correctable.
    InvalidInput,
    /// Missing or incorrect credential.
    Unauthorized,
    /// Unknown short id on the redirect path.
    NotFound,
    /// The collision-retry budget of the creation workflow is used up.
    Exhausted,
    /// A store timeout or an unclassified store failure.
    Internal,
}

/// The HTTP status each error maps to.
pub open spec fn status_of(e: ApiError) -> u16 {
    match e {
        ApiError::InvalidInput => 409,
        ApiError::Unauthorized => 401,
        ApiError::NotFound => 404,
        ApiError::Exhausted => 500,
        ApiError::Internal => 500,
    }
}

/// Maps an error to its HTTP status code: each kind deterministically to one
/// status, `Exhausted` and `Internal` both to the 500 class.
pub fn status_code(e: &ApiError) -> (s: u16)
    ensures
        s == status_of(*e),
{
    match e {
        ApiError::InvalidInput => 409,
        ApiError::Unauthorized => 401,
        ApiError::NotFound => 404,
        ApiError::Exhausted => 500,
        ApiError::Internal => 500,
    }
}

/// The body sent with each error: the specific reason for user-correctable
/// failures, a generic message for `Exhausted` and `Internal`, whose cause is
/// logged but never exposed to the client.
pub open spec fn message_of(e: ApiError) -> Seq<char> {
    match e {
        ApiError::InvalidInput => "url malformed"@,
        ApiError::Unauthorized => "Unauthorized"@,
        ApiError::NotFound => "Not found"@,
        ApiError::Exhausted => "Internal server error"@,
        ApiError::Internal => "Internal server error"@,
    }
}

/// The response body for an error.
pub fn public_message(e: &ApiError) -> (m: String)
    ensures
        m@ == message_of(*e),
{
    match e {
        ApiError::InvalidInput => String::from_str("url malformed"),
        ApiError::Unauthorized => String::from_str("Unauthorized"),
        ApiError::NotFound => String::from_str("Not found"),
        ApiError::Exhausted => String::from_str("Internal server error"),
        ApiError::Internal => String::from_str("Internal server error"),
    }
}

/// The liveness probe's body.
pub fn health_message() -> (m: String)
    ensures
        m@ == "Service is healthy"@,
{
    String::from_str("Service is healthy")
}

} // verus!
