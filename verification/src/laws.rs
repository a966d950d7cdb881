//! Laws that hold across the pipeline: what the shape gate owes for
//! unparseable input, what the projector owes for each shape failure and for
//! an authentication wall, what the classifier owes for each fingerprint,
//! and that every projected result carries a non-empty reason.

use vstd::prelude::*;
use crate::agent::AIDecision;
use crate::agent::AIValidationResult;
use crate::agent::ai_result_spec;
use crate::agent::error_type_is;
use crate::classify::ProbeClassification;
use crate::classify::auth_wall_spec;
use crate::classify::classify_spec;
use crate::classify::this_page_doesnt_exist_spec;
use crate::classify::url_not_found_spec;
use crate::error::LinkedInUrlError;
use crate::facade::ProbeOutcome;
use crate::facade::shape_error_matches;
use crate::shape::format_valid_spec;
use crate::shape::parse_failed_spec;

verus! {

/// A string that fails generic URL parsing is never format-valid, and the
/// only error the shape gate may return for it is invalid URL syntax — so
/// no probe is ever owed for it.
pub proof fn lemma_unparseable_never_valid(s: Seq<char>)
    requires
        parse_failed_spec(s),
    ensures
        !format_valid_spec(s),
        forall|e: LinkedInUrlError| #[trigger] shape_error_matches(s, e) ==> e is InvalidUrl,
{
}

/// The format check is a pure function of the input string: any two results
/// obtained for the same candidate agree, however many calls are made, and
/// no probe outcome enters into it.
pub proof fn lemma_format_check_deterministic(s: Seq<char>, r1: bool, r2: bool)
    requires
        r1 == format_valid_spec(s),
        r2 == format_valid_spec(s),
    ensures
        r1 == r2,
{
}

/// A URL whose host is not the target domain projects to a rejection with
/// full confidence and no extracted username, whatever the probe outcome.
pub proof fn lemma_wrong_domain_rejected(
    url: Seq<char>,
    probe: ProbeOutcome,
    ts: Seq<char>,
    r: AIValidationResult,
)
    requires
        crate::shape::wrong_domain_spec(url),
        ai_result_spec(url, probe, ts, r),
    ensures
        !r.is_valid,
        r.confidence == 100,
        r.decision == AIDecision::Reject,
        r.username is None,
        error_type_is(r, "WRONG_DOMAIN"@),
{
}

/// A URL on the target domain whose path is not a profile path projects to
/// a rejection with confidence at least 90, whatever the probe outcome.
pub proof fn lemma_wrong_path_rejected(
    url: Seq<char>,
    probe: ProbeOutcome,
    ts: Seq<char>,
    r: AIValidationResult,
)
    requires
        crate::shape::wrong_path_spec(url),
        ai_result_spec(url, probe, ts, r),
    ensures
        !r.is_valid,
        r.confidence == 95,
        r.confidence >= 90,
        r.decision == AIDecision::Reject,
        r.username is None,
        error_type_is(r, "NOT_PROFILE"@),
{
}

/// A final URL carrying the not-found path marker classifies as not found,
/// regardless of the body's content.
pub proof fn lemma_url_404_classifies_not_found(u: Seq<char>, b: Seq<char>)
    requires
        url_not_found_spec(u),
    ensures
        classify_spec(u, b) == ProbeClassification::NotFound,
{
}

/// A body carrying an authentication-wall marker classifies as requiring
/// authentication, whenever the final URL does not already mark a
/// not-found page (the final URL is consulted first).
pub proof fn lemma_authwall_classifies_auth_required(u: Seq<char>, b: Seq<char>)
    requires
        !url_not_found_spec(u),
        auth_wall_spec(b),
    ensures
        classify_spec(u, b) == ProbeClassification::AuthRequired,
{
}

/// A body carrying a "this page doesn't exist" phrase, in any apostrophe
/// variant, classifies as not found, whenever no auth-wall marker
/// co-occurs and the final URL does not already decide (both are consulted
/// first).
pub proof fn lemma_missing_page_phrase_classifies_not_found(u: Seq<char>, b: Seq<char>)
    requires
        !url_not_found_spec(u),
        !auth_wall_spec(b),
        this_page_doesnt_exist_spec(b),
    ensures
        classify_spec(u, b) == ProbeClassification::NotFound,
{
}

/// An authentication wall on a shape-valid URL projects to an acceptance
/// with confidence exactly 90 — never a rejection: the site's bot defenses
/// are treated as a positive signal for existence.
pub proof fn lemma_auth_wall_accepts(
    url: Seq<char>,
    final_url: String,
    body: String,
    ts: Seq<char>,
    r: AIValidationResult,
)
    requires
        format_valid_spec(url),
        classify_spec(final_url@, body@) == ProbeClassification::AuthRequired,
        ai_result_spec(url, ProbeOutcome::Response { final_url, body }, ts, r),
    ensures
        r.is_valid,
        r.confidence == 90,
        r.decision == AIDecision::Accept,
        r.decision != AIDecision::Reject,
{
}

/// Every error kind carries a non-empty human-readable message.
pub proof fn lemma_message_nonempty(e: LinkedInUrlError)
    ensures
        crate::error::message_spec(e).len() > 0,
{
    reveal_strlit("[INVALID_URL_FORMAT] The provided URL is not a valid URL: ");
    reveal_strlit("[NOT_LINKEDIN_DOMAIN] The URL is not from linkedin.com or www.linkedin.com domain");
    reveal_strlit("[NOT_PROFILE_URL] The URL is not a LinkedIn profile URL (expected format: /in/username)");
    reveal_strlit("[NETWORK_ERROR] Failed to connect to LinkedIn: ");
    reveal_strlit("[PROFILE_NOT_FOUND] The LinkedIn profile does not exist (404)");
    reveal_strlit("[AUTH_REQUIRED] LinkedIn requires authentication to verify this profile - cannot determine if profile exists");
    reveal_strlit("[CLIENT_BUILD_ERROR] Failed to create HTTP client: ");
}

/// Every projected result carries a non-empty human-readable reason,
/// whatever the input and probe outcome.
pub proof fn lemma_reason_nonempty(
    url: Seq<char>,
    probe: ProbeOutcome,
    ts: Seq<char>,
    r: AIValidationResult,
)
    requires
        ai_result_spec(url, probe, ts, r),
    ensures
        r.reason@.len() > 0,
{
    reveal_strlit("Invalid URL format: ");
    reveal_strlit("Not a LinkedIn URL");
    reveal_strlit("LinkedIn URL but not a profile (might be company page)");
    reveal_strlit("URL format is valid (network check unavailable)");
    reveal_strlit("Network error - retry later");
    reveal_strlit("Verified LinkedIn profile exists");
    reveal_strlit("LinkedIn profile likely exists (auth required)");
    reveal_strlit("LinkedIn profile does not exist (404)");
}

} // verus!
