//! The client: its configuration, the requests it sends, and how it reads
//! what comes back.
//!
//! Each operation is one round trip. The caller sends the request that the
//! client frames (`*_request`) and hands the response's status and body back
//! to the operation's method, which gives the call's result.
use crate::error::{HttpFailure, SentinelError};
use crate::model::{PolicyValidationResponse, ThreatAnalysisResponse};
use vstd::prelude::*;
use vstd::string::*;

verus! {

/// Path of the threat-analysis endpoint.
pub open spec fn analyze_path() -> Seq<char> {
    "/api/v1/analyze"@
}

/// Path of the policy-validation endpoint.
pub open spec fn policy_path() -> Seq<char> {
    "/api/v1/policy/validate"@
}

/// Path of the health endpoint.
pub open spec fn health_path() -> Seq<char> {
    "/health"@
}

/// The media type of the bodies sent.
pub open spec fn json_media_type() -> Seq<char> {
    "application/json"@
}

/// The `Authorization` header value that carries an API key.
pub open spec fn bearer_of(key: Seq<char>) -> Seq<char> {
    "Bearer "@ + key
}

/// A status in the success range.
pub open spec fn is_success_status(status: u16) -> bool {
    200 <= status <= 299
}

/// How a response status fails a call, if it does, on an endpoint that may
/// or may not signal rate limiting: 401 is `Authentication`, 429 on a
/// rate-limited endpoint is `RateLimit`, and every other non-success status
/// is an `Http` error.
pub open spec fn status_failure(status: u16, rate_limited: bool) -> Option<SentinelError> {
    if is_success_status(status) {
        None
    } else if status == 401 {
        Some(SentinelError::Authentication)
    } else if rate_limited && status == 429 {
        Some(SentinelError::RateLimit)
    } else {
        Some(SentinelError::Http(HttpFailure::Status(status)))
    }
}

/// The result of a call from its decoded body, once the status let it through.
pub open spec fn body_result<T>(body: ResponseBody<T>) -> Result<T, SentinelError> {
    match body {
        ResponseBody::Decoded(v) => Ok(v),
        ResponseBody::Undecodable(e) => Err(SentinelError::Json(e)),
        ResponseBody::Unread(e) => Err(SentinelError::Http(HttpFailure::Transport(e))),
    }
}

pub enum HttpMethod {
    Get,
    Post,
}

/// A request as it is to be sent.
pub struct OutgoingRequest {
    pub method: HttpMethod,
    pub url: String,
    /// Value of the `Authorization` header, where the endpoint takes one.
    pub authorization: Option<String>,
    /// Value of the `Content-Type` header, where a body is sent.
    pub content_type: Option<String>,
    /// The JSON body, where the endpoint takes one.
    pub json_body: Option<Vec<u8>>,
}

/// The body of a response as the caller obtained it.
pub enum ResponseBody<T> {
    /// The body was read and decoded.
    Decoded(T),
    /// The body was read but does not match the expected schema.
    Undecodable(serde_json::Error),
    /// Reading the body failed.
    Unread(reqwest::Error),
}

/// A configured client of the service.
#[derive(Debug, Clone)]
pub struct SentinelClient {
    base_url: String,
    api_key: String,
}

impl SentinelClient {
    /// The base URL the endpoints hang off.
    pub closed spec fn spec_base_url(&self) -> Seq<char> {
        self.base_url@
    }

    /// The API key sent as a bearer token.
    pub closed spec fn spec_api_key(&self) -> Seq<char> {
        self.api_key@
    }

    /// A usable client has a non-empty API key.
    pub open spec fn wf(&self) -> bool {
        self.spec_api_key().len() > 0
    }

    /// Makes a client; fails with `InvalidConfig` exactly when the API key
    /// is empty, whatever the base URL.
    pub fn new(base_url: String, api_key: String) -> (r: Result<SentinelClient, SentinelError>)
        ensures
            r is Err <==> api_key@.len() == 0,
            r matches Err(e) ==> e matches SentinelError::InvalidConfig(m)
                && m@ == "API key cannot be empty"@,
            r matches Ok(c) ==> c.wf() && c.spec_base_url() == base_url@ && c.spec_api_key()
                == api_key@,
    {
        if api_key.as_str().is_empty() {
            return Err(SentinelError::InvalidConfig(String::from_str("API key cannot be empty")));
        }
        Ok(SentinelClient { base_url, api_key })
    }

    /// The base URL.
    pub fn base_url(&self) -> (r: &String)
        ensures
            r@ == self.spec_base_url(),
    {
        &self.base_url
    }

    /// The full URL of the endpoint at `path`.
    fn endpoint(&self, path: &str) -> (r: String)
        ensures
            r@ == self.spec_base_url() + path@,
    {
        let mut url = self.base_url.clone();
        url.append(path);
        url
    }

    /// The `Authorization` header value of this client.
    pub fn authorization(&self) -> (r: String)
        ensures
            r@ == bearer_of(self.spec_api_key()),
    {
        let mut value = String::from_str("Bearer ");
        value.append(self.api_key.as_str());
        value
    }

    /// The authenticated POST of the JSON `body` to `path`.
    fn post_json(&self, path: &str, body: Vec<u8>) -> (r: OutgoingRequest)
        ensures
            r.method is Post,
            r.url@ == self.spec_base_url() + path@,
            r.authorization matches Some(a) && a@ == bearer_of(self.spec_api_key()),
            r.content_type matches Some(t) && t@ == json_media_type(),
            r.json_body == Some(body),
    {
        OutgoingRequest {
            method: HttpMethod::Post,
            url: self.endpoint(path),
            authorization: Some(self.authorization()),
            content_type: Some(String::from_str("application/json")),
            json_body: Some(body),
        }
    }

    /// The request that submits an encoded `ThreatAnalysisRequest`.
    pub fn analyze_request(&self, body: Vec<u8>) -> (r: OutgoingRequest)
        ensures
            r.method is Post,
            r.url@ == self.spec_base_url() + analyze_path(),
            r.authorization matches Some(a) && a@ == bearer_of(self.spec_api_key()),
            r.content_type matches Some(t) && t@ == json_media_type(),
            r.json_body == Some(body),
    {
        self.post_json("/api/v1/analyze", body)
    }

    /// The request that submits an encoded `PolicyValidationRequest`.
    pub fn policy_request(&self, body: Vec<u8>) -> (r: OutgoingRequest)
        ensures
            r.method is Post,
            r.url@ == self.spec_base_url() + policy_path(),
            r.authorization matches Some(a) && a@ == bearer_of(self.spec_api_key()),
            r.content_type matches Some(t) && t@ == json_media_type(),
            r.json_body == Some(body),
    {
        self.post_json("/api/v1/policy/validate", body)
    }

    /// The unauthenticated GET of the health endpoint.
    pub fn health_request(&self) -> (r: OutgoingRequest)
        ensures
            r.method is Get,
            r.url@ == self.spec_base_url() + health_path(),
            r.authorization is None,
            r.content_type is None,
            r.json_body is None,
    {
        OutgoingRequest {
            method: HttpMethod::Get,
            url: self.endpoint("/health"),
            authorization: None,
            content_type: None,
            json_body: None,
        }
    }

    /// How `status` fails the call, if it does; see `status_failure`.
    fn check_status(status: u16, rate_limited: bool) -> (r: Option<SentinelError>)
        ensures
            r == status_failure(status, rate_limited),
    {
        if 200 <= status && status <= 299 {
            None
        } else if status == 401 {
            Some(SentinelError::Authentication)
        } else if rate_limited && status == 429 {
            Some(SentinelError::RateLimit)
        } else {
            Some(SentinelError::Http(HttpFailure::Status(status)))
        }
    }

    /// The result of the body once the status let it through.
    fn read_body<T>(body: ResponseBody<T>) -> (r: Result<T, SentinelError>)
        ensures
            r == body_result(body),
    {
        match body {
            ResponseBody::Decoded(v) => Ok(v),
            ResponseBody::Undecodable(e) => Err(SentinelError::from(e)),
            ResponseBody::Unread(e) => Err(SentinelError::from(e)),
        }
    }

    /// The result of a threat analysis from the response's status and body.
    /// The status decides first, whatever the body: 401 fails with
    /// `Authentication`, 429 with `RateLimit`, any other non-success status
    /// with an `Http` error. After a success status, a body that could not be
    /// read or decoded fails, and an unsafe verdict fails with
    /// `ThreatDetected` carrying the service's explanation.
    pub fn analyze_threat(&self, status: u16, body: ResponseBody<ThreatAnalysisResponse>) -> (r:
        Result<ThreatAnalysisResponse, SentinelError>)
        ensures
            status == 401 ==> r == Err::<ThreatAnalysisResponse, SentinelError>(
                SentinelError::Authentication,
            ),
            status == 429 ==> r == Err::<ThreatAnalysisResponse, SentinelError>(
                SentinelError::RateLimit,
            ),
            !is_success_status(status) && status != 401 && status != 429 ==> r == Err::<
                ThreatAnalysisResponse,
                SentinelError,
            >(SentinelError::Http(HttpFailure::Status(status))),
            is_success_status(status) ==> match body_result(body) {
                Err(e) => r == Err::<ThreatAnalysisResponse, SentinelError>(e),
                Ok(a) => if a.is_safe {
                    r == Ok::<ThreatAnalysisResponse, SentinelError>(a)
                } else {
                    r == Err::<ThreatAnalysisResponse, SentinelError>(
                        SentinelError::ThreatDetected(a.explanation),
                    )
                },
            },
    {
        if let Some(e) = Self::check_status(status, true) {
            return Err(e);
        }
        let analysis = Self::read_body(body)?;
        if !analysis.is_safe {
            return Err(SentinelError::ThreatDetected(analysis.explanation));
        }
        Ok(analysis)
    }

    /// The result of a policy validation from the response's status and body.
    /// The status decides first, whatever the body: 401 fails with
    /// `Authentication`, any other non-success status (429 included) with an
    /// `Http` error. After a success status the report is returned as it
    /// came, compliant or not, unless the body could not be read or decoded.
    pub fn validate_policy(&self, status: u16, body: ResponseBody<PolicyValidationResponse>) -> (r:
        Result<PolicyValidationResponse, SentinelError>)
        ensures
            status == 401 ==> r == Err::<PolicyValidationResponse, SentinelError>(
                SentinelError::Authentication,
            ),
            !is_success_status(status) && status != 401 ==> r == Err::<
                PolicyValidationResponse,
                SentinelError,
            >(SentinelError::Http(HttpFailure::Status(status))),
            is_success_status(status) ==> r == body_result(body),
    {
        if let Some(e) = Self::check_status(status, false) {
            return Err(e);
        }
        Self::read_body(body)
    }

    /// The result of a health probe from the status it got: true exactly for
    /// a success status, whatever the body; a transport failure is an `Http`
    /// error.
    pub fn health_check(&self, sent: Result<u16, reqwest::Error>) -> (r: Result<bool, SentinelError>)
        ensures
            match sent {
                Err(e) => r == Err::<bool, SentinelError>(
                    SentinelError::Http(HttpFailure::Transport(e)),
                ),
                Ok(status) => r == Ok::<bool, SentinelError>(is_success_status(status)),
            },
    {
        match sent {
            Err(e) => Err(SentinelError::from(e)),
            Ok(status) => Ok(200 <= status && status <= 299),
        }
    }
}

} // verus!
