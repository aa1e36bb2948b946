//! The records exchanged with the service.
//!
//! Scores and confidences are IEEE-754 binary64 values on the wire; the
//! records carry them as their bit patterns (`f64::to_bits`), which keeps
//! them exact while the records pass through verified code untouched.
use std::collections::HashMap;
use vstd::prelude::*;

verus! {

/// Declares `serde_json::Value`, the value type of the open-ended `context`
/// and `metadata` maps; the records carry such values without reading them.
#[verifier::external_type_specification]
#[verifier::external_body]
pub struct ExJsonValue(serde_json::Value);

/// A prompt to be classified as safe or unsafe.
#[derive(Debug)]
pub struct ThreatAnalysisRequest {
    pub prompt: String,
    pub user_id: Option<String>,
    pub session_id: Option<String>,
    pub context: Option<HashMap<String, serde_json::Value>>,
}

/// The service's verdict on a prompt.
#[derive(Debug)]
pub struct ThreatAnalysisResponse {
    /// Bit pattern of the binary64 threat score.
    pub threat_score_bits: u64,
    pub is_safe: bool,
    pub threat_type: Option<String>,
    /// Bit pattern of the binary64 confidence.
    pub confidence_bits: u64,
    pub explanation: String,
    pub recommendations: Vec<String>,
    pub request_id: String,
}

/// Content to be checked against a named policy.
#[derive(Debug)]
pub struct PolicyValidationRequest {
    pub content: String,
    pub policy_type: String,
    pub metadata: Option<HashMap<String, serde_json::Value>>,
}

/// The service's compliance report; violations are data, not failures.
#[derive(Debug)]
pub struct PolicyValidationResponse {
    pub is_compliant: bool,
    pub violations: Vec<PolicyViolation>,
    /// Bit pattern of the binary64 compliance score.
    pub score_bits: u64,
    pub recommendations: Vec<String>,
}

/// A policy rule broken by validated content.
#[derive(Debug)]
pub struct PolicyViolation {
    pub rule_id: String,
    pub severity: String,
    pub description: String,
    pub suggestion: String,
}

} // verus!
