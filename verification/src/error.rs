//! Errors reported by the client and the error body returned by the API.

use vstd::prelude::*;

verus! {

#[verifier::external_type_specification]
#[verifier::external_body]
pub struct ExHttpError(reqwest::Error);

#[verifier::external_type_specification]
#[verifier::external_body]
pub struct ExJsonError(serde_json::Error);

/// The error codes the API documents; any other code reads as `Unknown`.
#[derive(Debug, Clone, PartialEq, Eq, Structural)]
pub enum ErrorCode {
    InvalidRequest,
    InvalidCredentials,
    Forbidden,
    NotFound,
    Gone,
    TooManyRequests,
    Unknown,
}

/// The body of an error response.
#[derive(Debug, Clone)]
pub struct ApiErrorBody {
    pub type_: Option<String>,
    pub id: Option<String>,
    pub code: Option<ErrorCode>,
    pub description: Option<String>,
    pub parameter: Option<String>,
    pub retry_after: Option<u64>,
}

/// Everything that can go wrong in a call.
#[derive(Debug)]
pub enum YookassaError {
    /// The HTTP transport failed, or the HTTP client could not be built.
    Http(reqwest::Error),
    /// A successful response body could not be decoded.
    Json(serde_json::Error),
    /// The caller's idempotence key is not one the API accepts.
    InvalidIdempotenceKey,
    /// The endpoint needs OAuth credentials and the client has Basic ones.
    OAuthRequired,
    /// The API answered with an error status and a decodable error body.
    Api { status: u16, body: ApiErrorBody },
    /// The API answered with an error status and a body that is no error body.
    UnexpectedStatus { status: u16, body: String },
}

} // verus!
