//! Error taxonomy of the client.
//!
//! Every failure is an explicit result: a non-2xx HTTP status carrying
//! the raw body, a decode failure naming the field and the offending raw
//! token, or a domain validation failure caught before any request is
//! sent.  Transport failures never reach this crate; the caller's
//! transport reports them itself.

use vstd::prelude::*;

verus! {

/// A malformed or missing field in a response payload: the field's name
/// and the raw token that stood there (empty when the field was absent).
#[derive(Clone, Debug, PartialEq)]
pub struct DecodeError {
    /// Name of the field that failed to decode.
    pub field: String,
    /// The offending raw token.
    pub value: String,
}

/// Any failure the client reports to its caller.
#[derive(Clone, Debug, PartialEq)]
pub enum ApiError {
    /// The server answered with a non-2xx status; the raw body is kept.
    Http { status: u16, body: String },
    /// A response payload did not have the promised shape.
    Decode(DecodeError),
    /// A request was built without a field its order class requires.
    Validation { field: String },
}

/// Admits a response body for decoding only when the status is a
/// success: any non-2xx status becomes an HTTP status error carrying the
/// status code and the raw body, and is never a decode attempt.
pub fn gate_response(status: u16, body: String) -> (r: Result<String, ApiError>)
    ensures
        200 <= status < 300 ==> r == Ok::<String, ApiError>(body),
        !(200 <= status < 300) ==> r == Err::<String, ApiError>(ApiError::Http { status, body }),
{
    if 200 <= status && status < 300 {
        Ok(body)
    } else {
        Err(ApiError::Http { status, body })
    }
}

/// The sentinel for endpoints whose success answer has no payload: a 204
/// or an empty body maps to this value, never through the JSON decoder.
#[derive(Clone, Copy, Debug, PartialEq, Eq, Structural)]
pub struct EmptyResponse;

} // verus!
