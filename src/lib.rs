//! A client for a remote security-analysis service: threat analysis of
//! prompts, policy validation of content, and a health probe.
//!
//! The library holds every decision the client makes (configuration checks,
//! the requests it sends, how each status code and body is interpreted); the
//! network round trips themselves are performed by the caller, who hands the
//! observed status and body back to the matching method of [`SentinelClient`].

mod client;
mod error;
mod model;

pub use client::{HttpMethod, OutgoingRequest, ResponseBody, SentinelClient};
pub use error::{HttpFailure, SentinelError};
pub use model::{
    PolicyValidationRequest, PolicyValidationResponse, PolicyViolation, ThreatAnalysisRequest,
    ThreatAnalysisResponse,
};
