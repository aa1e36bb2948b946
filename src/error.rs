use vstd::prelude::*;

verus! {

/// Declares `reqwest::Error`, the HTTP transport's error, so that `Http` can
/// carry it to the caller; nothing is assumed of what it holds.
#[verifier::external_type_specification]
#[verifier::external_body]
pub struct ExReqwestError(reqwest::Error);

/// Declares `serde_json::Error`, the JSON decoder's error, so that `Json` can
/// carry it to the caller; nothing is assumed of what it holds.
#[verifier::external_type_specification]
#[verifier::external_body]
pub struct ExJsonError(serde_json::Error);

/// Why a request failed at the HTTP level.
#[derive(Debug)]
pub enum HttpFailure {
    /// The transport failed: connection, timeout, TLS, DNS, or reading the body.
    Transport(reqwest::Error),
    /// The server answered with a non-success status that has no error kind of
    /// its own.
    Status(u16),
}

/// Every way a call of the client can fail.
#[derive(Debug)]
pub enum SentinelError {
    /// The request failed at the HTTP level.
    Http(HttpFailure),
    /// A body did not match the expected schema.
    Json(serde_json::Error),
    /// The server answered 401.
    Authentication,
    /// The call succeeded but the content was judged unsafe; carries the
    /// server's explanation.
    ThreatDetected(String),
    /// The server answered 429.
    RateLimit,
    /// The client was constructed with unusable arguments.
    InvalidConfig(String),
}

impl From<reqwest::Error> for SentinelError {
    fn from(e: reqwest::Error) -> (r: SentinelError)
        ensures
            r == SentinelError::Http(HttpFailure::Transport(e)),
    {
        SentinelError::Http(HttpFailure::Transport(e))
    }
}

impl vstd::std_specs::convert::FromSpecImpl<reqwest::Error> for SentinelError {
    open spec fn obeys_from_spec() -> bool {
        true
    }

    open spec fn from_spec(e: reqwest::Error) -> SentinelError {
        SentinelError::Http(HttpFailure::Transport(e))
    }
}

impl From<serde_json::Error> for SentinelError {
    fn from(e: serde_json::Error) -> (r: SentinelError)
        ensures
            r == SentinelError::Json(e),
    {
        SentinelError::Json(e)
    }
}

impl vstd::std_specs::convert::FromSpecImpl<serde_json::Error> for SentinelError {
    open spec fn obeys_from_spec() -> bool {
        true
    }

    open spec fn from_spec(e: serde_json::Error) -> SentinelError {
        SentinelError::Json(e)
    }
}

} // verus!
