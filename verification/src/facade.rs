//! The validation facade: composes the shape matcher and the response
//! classifier into the single "is this a real profile" result. The HTTP
//! round trip itself is the caller's: its outcome comes in as a
//! `ProbeOutcome` of plain values.

use vstd::prelude::*;
use crate::classify::ProbeClassification;
use crate::classify::classify_probe_response;
use crate::classify::classify_spec;
use crate::error::LinkedInUrlError;
use crate::shape::UrlParts;
use crate::shape::format_valid_spec;
use crate::shape::is_linkedin_domain;
use crate::shape::is_profile_path;
use crate::shape::parse_failed_spec;
use crate::shape::parse_outcome;
use crate::shape::parse_url_parts;
use crate::shape::wrong_domain_spec;
use crate::shape::wrong_path_spec;

verus! {

/// What the caller's transport layer hands back for one probe of a
/// shape-valid URL.
#[derive(Debug, Clone, PartialEq, Eq)]
pub enum ProbeOutcome {
    /// No request was attempted: the HTTP client could not be built.
    /// Carries the builder's message.
    NotAttempted(String),
    /// The request could not be completed; carries the transport's message.
    TransportFailed(String),
    /// A response arrived: its final URL after redirects, and its body.
    Response { final_url: String, body: String },
}

/// The error that the shape gate owes for a candidate: invalid URL syntax,
/// wrong domain, or wrong path, in that order.
pub open spec fn shape_error_matches(s: Seq<char>, e: LinkedInUrlError) -> bool {
    if parse_failed_spec(s) {
        e is InvalidUrl
    } else if wrong_domain_spec(s) {
        e == LinkedInUrlError::NotLinkedInUrl
    } else if wrong_path_spec(s) {
        e == LinkedInUrlError::NotProfileUrl
    } else {
        false
    }
}

/// The format gate: parses the candidate and checks domain and path,
/// failing with the first stage's error. No probe outcome is consulted, so
/// a caller can run it before deciding to issue any request.
pub fn check_profile_url_shape(url: &str) -> (r: Result<UrlParts, LinkedInUrlError>)
    ensures
        (r is Ok) == format_valid_spec(url@),
        r matches Ok(p) ==> parse_outcome(url@) == Some(p@),
        r matches Err(e) ==> shape_error_matches(url@, e),
{
    let parts = match parse_url_parts(url) {
        Ok(p) => p,
        Err(m) => {
            return Err(LinkedInUrlError::InvalidUrl(m));
        },
    };
    if !is_linkedin_domain(&parts) {
        return Err(LinkedInUrlError::NotLinkedInUrl);
    }
    if !is_profile_path(parts.path.as_str()) {
        return Err(LinkedInUrlError::NotProfileUrl);
    }
    Ok(parts)
}

/// The facade's boolean-or-error result: the first failing shape stage
/// short-circuits; otherwise the probe outcome decides, through the
/// classifier.
pub fn validate_profile_outcome(url: &str, probe: &ProbeOutcome) -> (r: Result<
    bool,
    LinkedInUrlError,
>)
    ensures
        !format_valid_spec(url@) ==> (r matches Err(e) && shape_error_matches(url@, e)),
        format_valid_spec(url@) ==> match *probe {
            ProbeOutcome::NotAttempted(m) => r == Err::<bool, LinkedInUrlError>(
                LinkedInUrlError::ClientBuildError(m),
            ),
            ProbeOutcome::TransportFailed(m) => r == Err::<bool, LinkedInUrlError>(
                LinkedInUrlError::NetworkError(m),
            ),
            ProbeOutcome::Response { final_url, body } => match classify_spec(
                final_url@,
                body@,
            ) {
                ProbeClassification::Exists => r == Ok::<bool, LinkedInUrlError>(true),
                ProbeClassification::NotFound => r == Err::<bool, LinkedInUrlError>(
                    LinkedInUrlError::ProfileNotFound,
                ),
                ProbeClassification::AuthRequired => r == Err::<bool, LinkedInUrlError>(
                    LinkedInUrlError::AuthenticationRequired,
                ),
            },
        },
{
    match check_profile_url_shape(url) {
        Ok(_) => {},
        Err(e) => {
            return Err(e);
        },
    }
    match probe {
        ProbeOutcome::NotAttempted(m) => Err(LinkedInUrlError::ClientBuildError(m.clone())),
        ProbeOutcome::TransportFailed(m) => Err(LinkedInUrlError::NetworkError(m.clone())),
        ProbeOutcome::Response { final_url, body } => {
            match classify_probe_response(final_url.as_str(), body.as_str()) {
                ProbeClassification::Exists => Ok(true),
                ProbeClassification::NotFound => Err(LinkedInUrlError::ProfileNotFound),
                ProbeClassification::AuthRequired => Err(LinkedInUrlError::AuthenticationRequired),
            }
        },
    }
}

} // verus!
