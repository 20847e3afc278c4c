//! Errors returned by the ClickUp API client.

use vstd::prelude::*;

verus! {

/// `url::ParseError`: why a string is not a valid URL.
#[verifier::external_type_specification]
#[verifier::external_body]
pub struct ExParseError(url::ParseError);

/// `reqwest::header::InvalidHeaderValue`: a header value with a forbidden byte.
#[verifier::external_type_specification]
#[verifier::external_body]
pub struct ExInvalidHeaderValue(reqwest::header::InvalidHeaderValue);

/// `reqwest::Error`: a failure of the HTTP client.
#[verifier::external_type_specification]
#[verifier::external_body]
pub struct ExReqwestError(reqwest::Error);

/// `serde_json::Error`: a response body that could not be decoded.
#[verifier::external_type_specification]
#[verifier::external_body]
pub struct ExSerdeJsonError(serde_json::Error);

/// Errors returned by the ClickUp API client.
#[derive(Debug)]
pub enum ClickUpError {
    /// No auth token was found in the environment.
    MissingAuthToken,
    /// Custom task IDs require a workspace (team) ID to resolve.
    MissingWorkspaceIdForCustomTask,
    /// The provided API base URL is not a valid URL.
    InvalidBaseUrl(url::ParseError),
    /// The token produced an invalid HTTP header value.
    InvalidHeader(reqwest::header::InvalidHeaderValue),
    /// A network-level error of the HTTP client.
    Request(reqwest::Error),
    /// The ClickUp API answered with a status outside `200..=299`.
    Http {
        /// The HTTP status code.
        status: u16,
        /// The error message extracted from the response body.
        message: String,
    },
    /// The response body could not be deserialized.
    Decode {
        /// The underlying deserialization error.
        source: serde_json::Error,
        /// The raw response body.
        body: String,
    },
}

/// Convenience alias for a result whose error is [`ClickUpError`].
pub type Result<T> = std::result::Result<T, ClickUpError>;

} // verus!
