//! The agent-facing result projector: a deterministic, side-effect-free
//! mapping from the shape verdict and the classified probe outcome to a
//! confidence score, a ternary decision, and the extracted username.

use vstd::prelude::*;
use vstd::string::StringExecFns;
use crate::classify::ProbeClassification;
use crate::classify::classify_probe_response;
use crate::classify::classify_spec;
use crate::facade::ProbeOutcome;
use crate::shape::extract_username;
use crate::shape::is_linkedin_domain;
use crate::shape::parse_failed_spec;
use crate::shape::parse_outcome;
use crate::shape::parse_url_parts;
use crate::shape::profile_username_spec;
use crate::shape::wrong_domain_spec;
use crate::shape::wrong_path_spec;

verus! {

/// The decision handed to an automated caller.
#[derive(Debug, Clone, Copy, PartialEq, Eq, Structural)]
pub enum AIDecision {
    /// Definitely use this URL.
    Accept,
    /// Try again later.
    Retry,
    /// Search for a different URL.
    Reject,
}

/// Validation metadata for advanced automated callers.
#[derive(Debug, Clone)]
pub struct ValidationMetadata {
    pub url_format_valid: bool,
    pub domain_verified: bool,
    pub profile_pattern_matched: bool,
    pub http_status: Option<u16>,
    pub error_type: Option<String>,
    pub timestamp: String,
}

/// An agent-friendly validation result with structured data.
#[derive(Debug, Clone)]
pub struct AIValidationResult {
    /// Whether the URL should be treated as a valid profile URL.
    pub is_valid: bool,
    /// Confidence, in hundredths (0 to 100).
    pub confidence: u8,
    /// The decision for the calling agent.
    pub decision: AIDecision,
    /// The extracted username, when the path shape matched.
    pub username: Option<String>,
    /// A human-readable reason.
    pub reason: String,
    /// Detailed metadata.
    pub metadata: ValidationMetadata,
}

/// The metadata's error tag is exactly `t`.
pub open spec fn error_type_is(r: AIValidationResult, t: Seq<char>) -> bool {
    match r.metadata.error_type {
        Some(s) => s@ == t,
        None => false,
    }
}

/// The username that the projector extracts for a candidate whose shape
/// matched: the final non-empty path segment.
pub open spec fn extracted_username_spec(url: Seq<char>) -> Seq<char> {
    match parse_outcome(url) {
        Some(dp) => profile_username_spec(dp.1),
        None => Seq::<char>::empty(),
    }
}

/// The fixed projection table over the taxonomy: one row per shape failure,
/// per failed probe, and per classification of a completed probe.
pub open spec fn ai_result_spec(
    url: Seq<char>,
    probe: ProbeOutcome,
    ts: Seq<char>,
    r: AIValidationResult,
) -> bool {
    &&& r.metadata.timestamp@ == ts
    &&& if parse_failed_spec(url) {
        &&& !r.is_valid
        &&& r.confidence == 100
        &&& r.decision == AIDecision::Reject
        &&& r.username is None
        &&& "Invalid URL format: "@.is_prefix_of(r.reason@)
        &&& !r.metadata.url_format_valid
        &&& !r.metadata.domain_verified
        &&& !r.metadata.profile_pattern_matched
        &&& r.metadata.http_status is None
        &&& error_type_is(r, "INVALID_URL"@)
    } else if wrong_domain_spec(url) {
        &&& !r.is_valid
        &&& r.confidence == 100
        &&& r.decision == AIDecision::Reject
        &&& r.username is None
        &&& r.reason@ == "Not a LinkedIn URL"@
        &&& r.metadata.url_format_valid
        &&& !r.metadata.domain_verified
        &&& !r.metadata.profile_pattern_matched
        &&& r.metadata.http_status is None
        &&& error_type_is(r, "WRONG_DOMAIN"@)
    } else if wrong_path_spec(url) {
        &&& !r.is_valid
        &&& r.confidence == 95
        &&& r.decision == AIDecision::Reject
        &&& r.username is None
        &&& r.reason@ == "LinkedIn URL but not a profile (might be company page)"@
        &&& r.metadata.url_format_valid
        &&& r.metadata.domain_verified
        &&& !r.metadata.profile_pattern_matched
        &&& r.metadata.http_status is None
        &&& error_type_is(r, "NOT_PROFILE"@)
    } else {
        &&& (r.username matches Some(u) && u@ == extracted_username_spec(url))
        &&& r.metadata.url_format_valid
        &&& r.metadata.domain_verified
        &&& r.metadata.profile_pattern_matched
        &&& match probe {
            ProbeOutcome::NotAttempted(_) => {
                &&& r.is_valid
                &&& r.confidence == 70
                &&& r.decision == AIDecision::Accept
                &&& r.reason@ == "URL format is valid (network check unavailable)"@
                &&& r.metadata.http_status is None
                &&& error_type_is(r, "VALIDATOR_ERROR"@)
            },
            ProbeOutcome::TransportFailed(_) => {
                &&& r.is_valid
                &&& r.confidence == 60
                &&& r.decision == AIDecision::Retry
                &&& r.reason@ == "Network error - retry later"@
                &&& r.metadata.http_status is None
                &&& error_type_is(r, "NETWORK_ERROR"@)
            },
            ProbeOutcome::Response { final_url, body } => match classify_spec(
                final_url@,
                body@,
            ) {
                ProbeClassification::Exists => {
                    &&& r.is_valid
                    &&& r.confidence == 100
                    &&& r.decision == AIDecision::Accept
                    &&& r.reason@ == "Verified LinkedIn profile exists"@
                    &&& r.metadata.http_status == Some(200u16)
                    &&& r.metadata.error_type is None
                },
                ProbeClassification::AuthRequired => {
                    &&& r.is_valid
                    &&& r.confidence == 90
                    &&& r.decision == AIDecision::Accept
                    &&& r.reason@ == "LinkedIn profile likely exists (auth required)"@
                    &&& r.metadata.http_status == Some(999u16)
                    &&& error_type_is(r, "AUTH_REQUIRED"@)
                },
                ProbeClassification::NotFound => {
                    &&& !r.is_valid
                    &&& r.confidence == 95
                    &&& r.decision == AIDecision::Reject
                    &&& r.reason@ == "LinkedIn profile does not exist (404)"@
                    &&& r.metadata.http_status == Some(404u16)
                    &&& error_type_is(r, "NOT_FOUND"@)
                },
            },
        }
    }
}

/// Projects one candidate URL and the outcome of its probe into an
/// agent-facing result, per the fixed projection table.
pub fn ai_evaluate(url: &str, probe: &ProbeOutcome, timestamp: String) -> (r: AIValidationResult)
    ensures
        ai_result_spec(url@, *probe, timestamp@, r),
{
    let parts = match parse_url_parts(url) {
        Ok(p) => p,
        Err(m) => {
            let mut reason = String::from_str("Invalid URL format: ");
            reason.append(m.as_str());
            proof {
                assert(("Invalid URL format: "@ + m@).subrange(
                    0,
                    "Invalid URL format: "@.len() as int,
                ) =~= "Invalid URL format: "@);
            }
            return AIValidationResult {
                is_valid: false,
                confidence: 100,
                decision: AIDecision::Reject,
                username: None,
                reason,
                metadata: ValidationMetadata {
                    url_format_valid: false,
                    domain_verified: false,
                    profile_pattern_matched: false,
                    http_status: None,
                    error_type: Some(String::from_str("INVALID_URL")),
                    timestamp,
                },
            };
        },
    };
    if !is_linkedin_domain(&parts) {
        return AIValidationResult {
            is_valid: false,
            confidence: 100,
            decision: AIDecision::Reject,
            username: None,
            reason: String::from_str("Not a LinkedIn URL"),
            metadata: ValidationMetadata {
                url_format_valid: true,
                domain_verified: false,
                profile_pattern_matched: false,
                http_status: None,
                error_type: Some(String::from_str("WRONG_DOMAIN")),
                timestamp,
            },
        };
    }
    let username = match extract_username(parts.path.as_str()) {
        Some(u) => u,
        None => {
            return AIValidationResult {
                is_valid: false,
                confidence: 95,
                decision: AIDecision::Reject,
                username: None,
                reason: String::from_str("LinkedIn URL but not a profile (might be company page)"),
                metadata: ValidationMetadata {
                    url_format_valid: true,
                    domain_verified: true,
                    profile_pattern_matched: false,
                    http_status: None,
                    error_type: Some(String::from_str("NOT_PROFILE")),
                    timestamp,
                },
            };
        },
    };
    match probe {
        ProbeOutcome::NotAttempted(_) => AIValidationResult {
            is_valid: true,
            confidence: 70,
            decision: AIDecision::Accept,
            username: Some(username),
            reason: String::from_str("URL format is valid (network check unavailable)"),
            metadata: ValidationMetadata {
                url_format_valid: true,
                domain_verified: true,
                profile_pattern_matched: true,
                http_status: None,
                error_type: Some(String::from_str("VALIDATOR_ERROR")),
                timestamp,
            },
        },
        ProbeOutcome::TransportFailed(_) => AIValidationResult {
            is_valid: true,
            confidence: 60,
            decision: AIDecision::Retry,
            username: Some(username),
            reason: String::from_str("Network error - retry later"),
            metadata: ValidationMetadata {
                url_format_valid: true,
                domain_verified: true,
                profile_pattern_matched: true,
                http_status: None,
                error_type: Some(String::from_str("NETWORK_ERROR")),
                timestamp,
            },
        },
        ProbeOutcome::Response { final_url, body } => {
            match classify_probe_response(final_url.as_str(), body.as_str()) {
                ProbeClassification::Exists => AIValidationResult {
                    is_valid: true,
                    confidence: 100,
                    decision: AIDecision::Accept,
                    username: Some(username),
                    reason: String::from_str("Verified LinkedIn profile exists"),
                    metadata: ValidationMetadata {
                        url_format_valid: true,
                        domain_verified: true,
                        profile_pattern_matched: true,
                        http_status: Some(200),
                        error_type: None,
                        timestamp,
                    },
                },
                ProbeClassification::AuthRequired => AIValidationResult {
                    is_valid: true,
                    confidence: 90,
                    decision: AIDecision::Accept,
                    username: Some(username),
                    reason: String::from_str("LinkedIn profile likely exists (auth required)"),
                    metadata: ValidationMetadata {
                        url_format_valid: true,
                        domain_verified: true,
                        profile_pattern_matched: true,
                        http_status: Some(999),
                        error_type: Some(String::from_str("AUTH_REQUIRED")),
                        timestamp,
                    },
                },
                ProbeClassification::NotFound => AIValidationResult {
                    is_valid: false,
                    confidence: 95,
                    decision: AIDecision::Reject,
                    username: Some(username),
                    reason: String::from_str("LinkedIn profile does not exist (404)"),
                    metadata: ValidationMetadata {
                        url_format_valid: true,
                        domain_verified: true,
                        profile_pattern_matched: true,
                        http_status: Some(404),
                        error_type: Some(String::from_str("NOT_FOUND")),
                        timestamp,
                    },
                },
            }
        },
    }
}

} // verus!
