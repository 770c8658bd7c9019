//! The error type returned by every fallible operation in the SDK.

use vstd::prelude::*;

verus! {

/// `reqwest::Error`: a transport failure (DNS, TLS, connection reset, ...).
#[verifier::external_type_specification]
#[verifier::external_body]
pub struct ExReqwestError(reqwest::Error);

/// `serde_json::Error`: a JSON (de)serialization failure.
#[verifier::external_type_specification]
#[verifier::external_body]
pub struct ExJsonError(serde_json::Error);

/// `serde_json::Value`: a parsed JSON document, carried through untouched.
#[verifier::external_type_specification]
#[verifier::external_body]
pub struct ExJsonValue(serde_json::Value);

/// `url::ParseError`: a URL that could not be built.
#[verifier::external_type_specification]
#[verifier::external_body]
pub struct ExUrlParseError(url::ParseError);

/// Error type returned by every fallible operation in the SDK.
#[derive(Debug)]
pub enum RobinhoodChainError {
    /// API key was missing or malformed at construction time (it must start
    /// with `msk_`). Get a free key at <https://madeonsol.com/pricing>.
    MissingApiKey,
    /// API returned a non-2xx HTTP status.
    Api {
        status: u16,
        message: String,
        body: serde_json::Value,
    },
    /// `reqwest` transport error (DNS, TLS, connection reset, etc).
    Transport(reqwest::Error),
    /// JSON serialization or deserialization error.
    Json(serde_json::Error),
    /// URL-building error (only fires for impossible parameter combinations).
    Url(url::ParseError),
}

/// Result type of every fallible operation in the SDK.
pub type Result<T> = core::result::Result<T, RobinhoodChainError>;

impl RobinhoodChainError {
    /// The HTTP status an `Api` error carries; `None` for every other variant.
    pub open spec fn reported_status(&self) -> Option<u16> {
        match self {
            RobinhoodChainError::Api { status, .. } => Some(*status),
            _ => None,
        }
    }

    /// Returns the HTTP status code if this is an `Api` variant.
    pub fn status(&self) -> (r: Option<u16>)
        ensures
            r == self.reported_status(),
    {
        match self {
            RobinhoodChainError::Api { status, .. } => Some(*status),
            _ => None,
        }
    }

    /// Returns the raw response body if this is an `Api` variant.
    pub fn body(&self) -> (r: Option<&serde_json::Value>)
        ensures
            match self {
                RobinhoodChainError::Api { body, .. } => r == Some(body),
                _ => r is None,
            },
    {
        match self {
            RobinhoodChainError::Api { body, .. } => Some(body),
            _ => None,
        }
    }
}

} // verus!
