//! The structured, line-oriented validation report: a fixed-order key:value
//! text block meant to be parsed by line prefix. The contract pins, for each
//! outcome, the marker lines the report contains.

use vstd::prelude::*;
use crate::classify::ProbeClassification;
use crate::classify::classify_spec;
use crate::error::LinkedInUrlError;
use crate::error::message_spec;
use crate::facade::ProbeOutcome;
use crate::facade::validate_profile_outcome;
use crate::shape::extract_username;
use crate::shape::format_valid_spec;
use crate::shape::is_profile_path_spec;
use crate::shape::parse_failed_spec;
use crate::shape::parse_outcome;
use crate::shape::parse_url_parts;
use crate::shape::profile_username_spec;
use crate::shape::wrong_domain_spec;
use crate::shape::wrong_path_spec;
use crate::strutil::contains_seq;
use crate::strutil::push_kv;
use crate::strutil::push_part;

verus! {

/// Relies on `chrono::Utc::now` and `DateTime::to_rfc3339` for the report's
/// timestamp; an RFC 3339 rendering is never empty.
#[verifier::external_body]
fn now_rfc3339() -> (r: String)
    ensures
        r@.len() > 0,
{
    chrono::Utc::now().to_rfc3339()
}

/// The marker lines of a successful validation report.
pub open spec fn success_markers(r: Seq<char>) -> bool {
    &&& contains_seq(r, "VALIDATION_RESULT: SUCCESS\n"@)
    &&& contains_seq(r, "VALIDATION_STATUS: PASSED\n"@)
    &&& contains_seq(r, "PROFILE_EXISTS: TRUE\n"@)
    &&& contains_seq(r, "URL_FORMAT: VALID\n"@)
    &&& contains_seq(r, "DOMAIN_VERIFIED: TRUE\n"@)
    &&& contains_seq(r, "PROFILE_ACCESSIBLE: TRUE\n"@)
    &&& contains_seq(r, "\nDETAILED_EXPLANATION:\n"@)
    &&& contains_seq(r, "\nSUGGESTED_ACTIONS:\n"@)
    &&& contains_seq(
        r,
        "\nRECOMMENDED_NEXT_STEP: Extract profile data using appropriate LinkedIn data extraction methods\n"@,
    )
}

/// A successful report names the username whenever the candidate's path has
/// the profile shape.
pub open spec fn success_username_marker(r: Seq<char>, url: Seq<char>) -> bool {
    match parse_outcome(url) {
        Some(dp) => is_profile_path_spec(dp.1) ==> contains_seq(
            r,
            "LINKEDIN_USERNAME: "@ + profile_username_spec(dp.1) + "\n"@,
        ),
        None => true,
    }
}

/// A wrong-domain report names the observed domain, when the URL has one.
pub open spec fn actual_domain_marker(r: Seq<char>, url: Seq<char>) -> bool {
    match parse_outcome(url) {
        Some(dp) => match dp.0 {
            Some(d) => contains_seq(r, "ACTUAL_DOMAIN: "@ + d + "\n"@),
            None => true,
        },
        None => true,
    }
}

/// The marker lines of an invalid-URL-syntax report.
pub open spec fn invalid_url_markers(r: Seq<char>, msg: Seq<char>) -> bool {
    &&& contains_seq(r, "ERROR_TYPE: INVALID_URL_FORMAT\n"@)
    &&& contains_seq(r, "ERROR_MESSAGE: "@ + msg + "\n"@)
    &&& contains_seq(r, "ERROR_SEVERITY: HIGH\n"@)
    &&& contains_seq(r, "\nDETAILED_EXPLANATION:\n"@)
    &&& contains_seq(r, "\nSUGGESTED_ACTIONS:\n"@)
    &&& contains_seq(r, "PROFILE_EXISTS: UNKNOWN\n"@)
    &&& contains_seq(r, "URL_FORMAT: INVALID\n"@)
    &&& contains_seq(r, "\nRECOMMENDED_NEXT_STEP: Fix the URL format and retry validation\n"@)
}

/// The marker lines of a wrong-domain report.
pub open spec fn not_linkedin_markers(r: Seq<char>, msg: Seq<char>) -> bool {
    &&& contains_seq(r, "ERROR_TYPE: NOT_LINKEDIN_DOMAIN\n"@)
    &&& contains_seq(r, "ERROR_MESSAGE: "@ + msg + "\n"@)
    &&& contains_seq(r, "ERROR_SEVERITY: MEDIUM\n"@)
    &&& contains_seq(r, "\nDETAILED_EXPLANATION:\n"@)
    &&& contains_seq(r, "\nSUGGESTED_ACTIONS:\n"@)
    &&& contains_seq(r, "PROFILE_EXISTS: NOT_APPLICABLE\n"@)
    &&& contains_seq(r, "URL_FORMAT: VALID\n"@)
    &&& contains_seq(r, "DOMAIN_VERIFIED: FALSE\n"@)
    &&& contains_seq(
        r,
        "\nRECOMMENDED_NEXT_STEP: Obtain the correct LinkedIn profile URL from the user or source\n"@,
    )
}

/// The marker lines of a wrong-path report.
pub open spec fn not_profile_markers(r: Seq<char>, msg: Seq<char>) -> bool {
    &&& contains_seq(r, "ERROR_TYPE: NOT_PROFILE_URL\n"@)
    &&& contains_seq(r, "ERROR_MESSAGE: "@ + msg + "\n"@)
    &&& contains_seq(r, "ERROR_SEVERITY: MEDIUM\n"@)
    &&& contains_seq(r, "\nDETAILED_EXPLANATION:\n"@)
    &&& contains_seq(r, "\nSUGGESTED_ACTIONS:\n"@)
    &&& contains_seq(r, "PROFILE_EXISTS: NOT_APPLICABLE\n"@)
    &&& contains_seq(r, "URL_FORMAT: VALID\n"@)
    &&& contains_seq(r, "DOMAIN_VERIFIED: TRUE\n"@)
    &&& contains_seq(r, "URL_TYPE: NON_PROFILE_LINKEDIN_URL\n"@)
    &&& contains_seq(
        r,
        "\nRECOMMENDED_NEXT_STEP: Navigate to the personal profile section of LinkedIn\n"@,
    )
}

/// The marker lines of a profile-not-found report.
pub open spec fn not_found_markers(r: Seq<char>, msg: Seq<char>) -> bool {
    &&& contains_seq(r, "ERROR_TYPE: PROFILE_NOT_FOUND\n"@)
    &&& contains_seq(r, "ERROR_MESSAGE: "@ + msg + "\n"@)
    &&& contains_seq(r, "ERROR_SEVERITY: LOW\n"@)
    &&& contains_seq(r, "\nDETAILED_EXPLANATION:\n"@)
    &&& contains_seq(r, "\nSUGGESTED_ACTIONS:\n"@)
    &&& contains_seq(r, "PROFILE_EXISTS: FALSE\n"@)
    &&& contains_seq(r, "URL_FORMAT: VALID\n"@)
    &&& contains_seq(r, "DOMAIN_VERIFIED: TRUE\n"@)
    &&& contains_seq(r, "HTTP_STATUS: 404\n"@)
    &&& contains_seq(
        r,
        "\nRECOMMENDED_NEXT_STEP: Search for the correct profile or mark as invalid in your system\n"@,
    )
}

/// The marker lines of an authentication-wall report.
pub open spec fn auth_required_markers(r: Seq<char>, msg: Seq<char>) -> bool {
    &&& contains_seq(r, "ERROR_TYPE: AUTH_REQUIRED\n"@)
    &&& contains_seq(r, "ERROR_MESSAGE: "@ + msg + "\n"@)
    &&& contains_seq(r, "ERROR_SEVERITY: MEDIUM\n"@)
    &&& contains_seq(r, "\nDETAILED_EXPLANATION:\n"@)
    &&& contains_seq(r, "\nSUGGESTED_ACTIONS:\n"@)
    &&& contains_seq(r, "PROFILE_EXISTS: UNKNOWN\n"@)
    &&& contains_seq(r, "URL_FORMAT: VALID\n"@)
    &&& contains_seq(r, "DOMAIN_VERIFIED: TRUE\n"@)
    &&& contains_seq(r, "LINKEDIN_RESPONSE: AUTHENTICATION_WALL\n"@)
    &&& contains_seq(
        r,
        "\nRECOMMENDED_NEXT_STEP: ACCEPT this URL as valid - LinkedIn authentication requirements typically indicate the profile exists\n"@,
    )
}

/// The marker lines of a network-failure report.
pub open spec fn network_error_markers(r: Seq<char>, msg: Seq<char>) -> bool {
    &&& contains_seq(r, "ERROR_TYPE: NETWORK_ERROR\n"@)
    &&& contains_seq(r, "ERROR_MESSAGE: "@ + msg + "\n"@)
    &&& contains_seq(r, "ERROR_SEVERITY: HIGH\n"@)
    &&& contains_seq(r, "\nDETAILED_EXPLANATION:\n"@)
    &&& contains_seq(r, "\nSUGGESTED_ACTIONS:\n"@)
    &&& contains_seq(r, "PROFILE_EXISTS: UNKNOWN\n"@)
    &&& contains_seq(r, "URL_FORMAT: VALID\n"@)
    &&& contains_seq(r, "NETWORK_STATUS: FAILED\n"@)
    &&& contains_seq(
        r,
        "\nRECOMMENDED_NEXT_STEP: Diagnose and resolve network connectivity issues\n"@,
    )
}

/// The marker lines of a client-initialization-failure report.
pub open spec fn client_build_markers(r: Seq<char>, msg: Seq<char>) -> bool {
    &&& contains_seq(r, "ERROR_TYPE: VALIDATOR_INITIALIZATION_FAILED\n"@)
    &&& contains_seq(r, "ERROR_MESSAGE: "@ + msg + "\n"@)
    &&& contains_seq(r, "ERROR_SEVERITY: CRITICAL\n"@)
    &&& contains_seq(r, "\nDETAILED_EXPLANATION:\n"@)
    &&& contains_seq(r, "\nSUGGESTED_ACTIONS:\n"@)
    &&& contains_seq(
        r,
        "\nRECOMMENDED_NEXT_STEP: Resolve system-level issues before attempting validation again\n"@,
    )
}

/// The marker lines owed for each error kind, on top of those every error
/// report carries.
pub open spec fn report_error_markers(r: Seq<char>, url: Seq<char>, e: LinkedInUrlError) -> bool {
    &&& contains_seq(r, "VALIDATION_RESULT: ERROR\n"@)
    &&& contains_seq(r, "VALIDATION_STATUS: FAILED\n"@)
    &&& contains_seq(r, "\nDETAILED_EXPLANATION:\n"@)
    &&& contains_seq(r, "\nSUGGESTED_ACTIONS:\n"@)
    &&& match e {
        LinkedInUrlError::InvalidUrl(_) => invalid_url_markers(r, message_spec(e)),
        LinkedInUrlError::NotLinkedInUrl => not_linkedin_markers(r, message_spec(e))
            && actual_domain_marker(r, url),
        LinkedInUrlError::NotProfileUrl => not_profile_markers(r, message_spec(e)),
        LinkedInUrlError::ProfileNotFound => not_found_markers(r, message_spec(e)),
        LinkedInUrlError::AuthenticationRequired => auth_required_markers(r, message_spec(e)),
        LinkedInUrlError::NetworkError(_) => network_error_markers(r, message_spec(e)),
        LinkedInUrlError::ClientBuildError(_) => client_build_markers(r, message_spec(e)),
    }
}

/// The marker lines every report carries: the frame, the timestamp line and
/// the echoed input URL.
pub open spec fn report_frame_markers(r: Seq<char>, url: Seq<char>) -> bool {
    &&& contains_seq(r, "=== LINKEDIN PROFILE VALIDATION REPORT ===\n\n"@)
    &&& contains_seq(r, "TIMESTAMP: "@)
    &&& contains_seq(r, "INPUT_URL: "@ + url + "\n"@)
    &&& contains_seq(r, "\n=== END OF VALIDATION REPORT ===\n"@)
}

fn push_invalid_url_block(s: &mut String, msg: &str)
    ensures
        invalid_url_markers(final(s)@, msg@),
        forall|n: Seq<char>| #[trigger] contains_seq(old(s)@, n) ==> contains_seq(final(s)@, n),
{
    push_part(s, "ERROR_TYPE: INVALID_URL_FORMAT\n");
    push_kv(s, "ERROR_MESSAGE: ", msg);
    push_part(s, "ERROR_SEVERITY: HIGH\n");
    push_part(s, "PROFILE_EXISTS: UNKNOWN\n");
    push_part(s, "URL_FORMAT: INVALID\n");
    push_part(s, "\nDETAILED_EXPLANATION:\n");
    push_part(
        s,
        "The provided string is not a valid URL. The URL parser failed to interpret the input as a properly formatted URL. ",
    );
    push_part(
        s,
        "Common causes include missing protocol (http/https), invalid characters, or malformed structure.\n",
    );
    push_part(s, "\nSUGGESTED_ACTIONS:\n");
    push_part(s, "1. Ensure the URL starts with 'https://' or 'http://'\n");
    push_part(s, "2. Check for special characters that need URL encoding\n");
    push_part(s, "3. Verify there are no spaces or line breaks in the URL\n");
    push_part(s, "4. Confirm the URL follows standard format: protocol://domain/path\n");
    push_part(s, "5. Try URL encoding the input if it contains special characters\n");
    push_part(s, "6. Example valid format: https://www.linkedin.com/in/username\n");
    push_part(s, "\nRECOMMENDED_NEXT_STEP: Fix the URL format and retry validation\n");
}

fn push_not_linkedin_block(s: &mut String, msg: &str, url: &str)
    ensures
        not_linkedin_markers(final(s)@, msg@),
        actual_domain_marker(final(s)@, url@),
        forall|n: Seq<char>| #[trigger] contains_seq(old(s)@, n) ==> contains_seq(final(s)@, n),
{
    push_part(s, "ERROR_TYPE: NOT_LINKEDIN_DOMAIN\n");
    push_kv(s, "ERROR_MESSAGE: ", msg);
    push_part(s, "ERROR_SEVERITY: MEDIUM\n");
    push_part(s, "PROFILE_EXISTS: NOT_APPLICABLE\n");
    push_part(s, "URL_FORMAT: VALID\n");
    push_part(s, "DOMAIN_VERIFIED: FALSE\n");
    if let Ok(parts) = parse_url_parts(url) {
        if let Some(domain) = &parts.domain {
            push_kv(s, "ACTUAL_DOMAIN: ", domain.as_str());
        }
    }
    push_part(s, "\nDETAILED_EXPLANATION:\n");
    push_part(s, "The URL is properly formatted but does not point to LinkedIn. ");
    push_part(
        s,
        "Only URLs from 'linkedin.com' or 'www.linkedin.com' domains are accepted for LinkedIn profile validation. ",
    );
    push_part(s, "The provided URL points to a different domain.\n");
    push_part(s, "\nSUGGESTED_ACTIONS:\n");
    push_part(s, "1. Verify the URL is meant to be a LinkedIn profile URL\n");
    push_part(s, "2. Check if the URL was copied correctly from LinkedIn\n");
    push_part(s, "3. Ensure the domain is 'linkedin.com' or 'www.linkedin.com'\n");
    push_part(s, "4. Look for the correct LinkedIn profile URL in the user's social media links\n");
    push_part(s, "5. Ask the user to provide their LinkedIn profile URL directly\n");
    push_part(
        s,
        "\nRECOMMENDED_NEXT_STEP: Obtain the correct LinkedIn profile URL from the user or source\n",
    );
}

fn push_not_profile_block(s: &mut String, msg: &str)
    ensures
        not_profile_markers(final(s)@, msg@),
        forall|n: Seq<char>| #[trigger] contains_seq(old(s)@, n) ==> contains_seq(final(s)@, n),
{
    push_part(s, "ERROR_TYPE: NOT_PROFILE_URL\n");
    push_kv(s, "ERROR_MESSAGE: ", msg);
    push_part(s, "ERROR_SEVERITY: MEDIUM\n");
    push_part(s, "PROFILE_EXISTS: NOT_APPLICABLE\n");
    push_part(s, "URL_FORMAT: VALID\n");
    push_part(s, "DOMAIN_VERIFIED: TRUE\n");
    push_part(s, "URL_TYPE: NON_PROFILE_LINKEDIN_URL\n");
    push_part(s, "\nDETAILED_EXPLANATION:\n");
    push_part(s, "The URL points to LinkedIn but is not a personal profile URL. ");
    push_part(s, "It might be a company page, job posting, or other LinkedIn content. ");
    push_part(s, "Valid profile URLs follow the pattern: linkedin.com/in/username\n");
    push_part(s, "\nSUGGESTED_ACTIONS:\n");
    push_part(s, "1. Check if this is a company page URL (contains '/company/')\n");
    push_part(s, "2. Verify if this is a job posting URL (contains '/jobs/')\n");
    push_part(s, "3. Look for the '/in/' segment that indicates a personal profile\n");
    push_part(s, "4. Navigate to the person's actual profile page on LinkedIn\n");
    push_part(s, "5. Use LinkedIn search to find the correct profile URL\n");
    push_part(s, "\nRECOMMENDED_NEXT_STEP: Navigate to the personal profile section of LinkedIn\n");
}

fn push_not_found_block(s: &mut String, msg: &str)
    ensures
        not_found_markers(final(s)@, msg@),
        forall|n: Seq<char>| #[trigger] contains_seq(old(s)@, n) ==> contains_seq(final(s)@, n),
{
    push_part(s, "ERROR_TYPE: PROFILE_NOT_FOUND\n");
    push_kv(s, "ERROR_MESSAGE: ", msg);
    push_part(s, "ERROR_SEVERITY: LOW\n");
    push_part(s, "PROFILE_EXISTS: FALSE\n");
    push_part(s, "URL_FORMAT: VALID\n");
    push_part(s, "DOMAIN_VERIFIED: TRUE\n");
    push_part(s, "HTTP_STATUS: 404\n");
    push_part(s, "\nDETAILED_EXPLANATION:\n");
    push_part(
        s,
        "The URL format is correct and points to LinkedIn, but the profile does not exist. ",
    );
    push_part(s, "LinkedIn returned a 404 error or redirected to an error page. ");
    push_part(
        s,
        "This means the username in the URL does not correspond to any active LinkedIn profile.\n",
    );
    push_part(s, "\nSUGGESTED_ACTIONS:\n");
    push_part(s, "1. Double-check the username/URL for typos\n");
    push_part(s, "2. Verify if the profile might have been deleted or deactivated\n");
    push_part(s, "3. Check if the user might have changed their LinkedIn URL\n");
    push_part(s, "4. Search for the person on LinkedIn using their name\n");
    push_part(s, "5. Contact the person to get their current LinkedIn profile URL\n");
    push_part(s, "6. Remove this URL from your database if it's stored\n");
    push_part(
        s,
        "\nRECOMMENDED_NEXT_STEP: Search for the correct profile or mark as invalid in your system\n",
    );
}

fn push_auth_required_block(s: &mut String, msg: &str)
    ensures
        auth_required_markers(final(s)@, msg@),
        forall|n: Seq<char>| #[trigger] contains_seq(old(s)@, n) ==> contains_seq(final(s)@, n),
{
    push_part(s, "ERROR_TYPE: AUTH_REQUIRED\n");
    push_kv(s, "ERROR_MESSAGE: ", msg);
    push_part(s, "ERROR_SEVERITY: MEDIUM\n");
    push_part(s, "PROFILE_EXISTS: UNKNOWN\n");
    push_part(s, "URL_FORMAT: VALID\n");
    push_part(s, "DOMAIN_VERIFIED: TRUE\n");
    push_part(s, "LINKEDIN_RESPONSE: AUTHENTICATION_WALL\n");
    push_part(s, "\nDETAILED_EXPLANATION:\n");
    push_part(s, "LinkedIn is requiring authentication to view this profile. ");
    push_part(
        s,
        "This typically happens when LinkedIn detects automated access patterns or when accessing from certain IP ranges. ",
    );
    push_part(
        s,
        "The profile format is valid and the profile LIKELY EXISTS, but LinkedIn is preventing automated verification.\n",
    );
    push_part(s, "\nSUGGESTED_ACTIONS:\n");
    push_part(
        s,
        "1. ACCEPT AS VALID: The URL format is correct and points to LinkedIn - treat as valid profile URL\n",
    );
    push_part(
        s,
        "2. RETRY LATER: Wait 30-60 seconds before trying to validate this URL again\n",
    );
    push_part(
        s,
        "3. CONTINUE SEARCH: This URL is likely correct, but continue searching for alternative profiles if needed\n",
    );
    push_part(s, "4. CONFIDENCE: HIGH - LinkedIn auth walls usually indicate real profiles\n");
    push_part(s, "5. FOR AI AGENTS: You can safely return this URL as a valid LinkedIn profile\n");
    push_part(
        s,
        "6. VERIFICATION: The URL follows pattern https://linkedin.com/in/USERNAME which is correct\n",
    );
    push_part(s, "7. RECOMMENDATION: Use this URL - it's almost certainly a valid profile\n");
    push_part(
        s,
        "\nRECOMMENDED_NEXT_STEP: ACCEPT this URL as valid - LinkedIn authentication requirements typically indicate the profile exists\n",
    );
}

fn push_network_error_block(s: &mut String, msg: &str)
    ensures
        network_error_markers(final(s)@, msg@),
        forall|n: Seq<char>| #[trigger] contains_seq(old(s)@, n) ==> contains_seq(final(s)@, n),
{
    push_part(s, "ERROR_TYPE: NETWORK_ERROR\n");
    push_kv(s, "ERROR_MESSAGE: ", msg);
    push_part(s, "ERROR_SEVERITY: HIGH\n");
    push_part(s, "PROFILE_EXISTS: UNKNOWN\n");
    push_part(s, "URL_FORMAT: VALID\n");
    push_part(s, "NETWORK_STATUS: FAILED\n");
    push_part(s, "\nDETAILED_EXPLANATION:\n");
    push_part(s, "Failed to establish a network connection to LinkedIn. ");
    push_part(
        s,
        "This could be due to network connectivity issues, DNS resolution problems, ",
    );
    push_part(s, "firewall restrictions, or LinkedIn being temporarily unavailable.\n");
    push_part(s, "\nSUGGESTED_ACTIONS:\n");
    push_part(s, "1. Check internet connectivity with a simple ping test\n");
    push_part(s, "2. Verify DNS resolution for linkedin.com\n");
    push_part(s, "3. Check firewall settings for outbound HTTPS connections\n");
    push_part(s, "4. Test if LinkedIn is accessible from a web browser\n");
    push_part(s, "5. Implement retry logic with exponential backoff\n");
    push_part(s, "6. Check for any proxy configuration requirements\n");
    push_part(s, "7. Monitor LinkedIn's status page for any outages\n");
    push_part(s, "\nRECOMMENDED_NEXT_STEP: Diagnose and resolve network connectivity issues\n");
}

fn push_client_build_block(s: &mut String, msg: &str)
    ensures
        client_build_markers(final(s)@, msg@),
        forall|n: Seq<char>| #[trigger] contains_seq(old(s)@, n) ==> contains_seq(final(s)@, n),
{
    push_part(s, "ERROR_TYPE: VALIDATOR_INITIALIZATION_FAILED\n");
    push_kv(s, "ERROR_MESSAGE: ", msg);
    push_part(s, "ERROR_SEVERITY: CRITICAL\n");
    push_part(s, "\nDETAILED_EXPLANATION:\n");
    push_part(
        s,
        "The HTTP client required for LinkedIn validation could not be initialized. ",
    );
    push_part(
        s,
        "This is typically caused by system resource constraints or TLS configuration issues.\n",
    );
    push_part(s, "\nSUGGESTED_ACTIONS:\n");
    push_part(s, "1. Check available system memory and ensure sufficient resources\n");
    push_part(s, "2. Verify TLS/SSL libraries are properly installed on the system\n");
    push_part(s, "3. Check for any system-level network restrictions or firewall rules\n");
    push_part(s, "4. Try restarting the application or service\n");
    push_part(s, "5. If problem persists, check system logs for more detailed error information\n");
    push_part(
        s,
        "\nRECOMMENDED_NEXT_STEP: Resolve system-level issues before attempting validation again\n",
    );
}

fn push_success_block(s: &mut String, url: &str)
    ensures
        success_markers(final(s)@),
        success_username_marker(final(s)@, url@),
        forall|n: Seq<char>| #[trigger] contains_seq(old(s)@, n) ==> contains_seq(final(s)@, n),
{
    push_part(s, "VALIDATION_RESULT: SUCCESS\n");
    push_part(s, "VALIDATION_STATUS: PASSED\n");
    push_part(s, "PROFILE_EXISTS: TRUE\n");
    push_part(s, "URL_FORMAT: VALID\n");
    push_part(s, "DOMAIN_VERIFIED: TRUE\n");
    push_part(s, "PROFILE_ACCESSIBLE: TRUE\n");
    if let Ok(parts) = parse_url_parts(url) {
        if let Some(username) = extract_username(parts.path.as_str()) {
            push_kv(s, "LINKEDIN_USERNAME: ", username.as_str());
        }
    }
    push_part(s, "\nDETAILED_EXPLANATION:\n");
    push_part(
        s,
        "The provided URL has been successfully validated. The LinkedIn profile exists and is accessible. ",
    );
    push_part(
        s,
        "The URL follows the correct LinkedIn profile format and the domain has been verified as authentic. ",
    );
    push_part(
        s,
        "The profile page returned a successful response, confirming the profile is active and publicly viewable.\n",
    );
    push_part(s, "\nSUGGESTED_ACTIONS:\n");
    push_part(
        s,
        "1. Proceed with profile data extraction using LinkedIn API or web scraping tools\n",
    );
    push_part(s, "2. Cache this validation result to avoid repeated network requests\n");
    push_part(s, "3. Store the profile URL in your database as a verified LinkedIn profile\n");
    push_part(s, "4. Consider extracting additional profile metadata (name, headline, etc.)\n");
    push_part(s, "5. Set up monitoring to periodically re-validate the profile existence\n");
    push_part(
        s,
        "\nRECOMMENDED_NEXT_STEP: Extract profile data using appropriate LinkedIn data extraction methods\n",
    );
}

/// Renders the structured report for one validation outcome. The report
/// frames the input URL and timestamp, and carries the marker lines owed
/// for the outcome.
pub fn render_llm_report(url: &str, outcome: &Result<bool, LinkedInUrlError>) -> (r: String)
    ensures
        report_frame_markers(r@, url@),
        (*outcome) is Ok ==> success_markers(r@) && success_username_marker(r@, url@),
        (*outcome) matches Err(e) ==> report_error_markers(r@, url@, e),
{
    let mut s = String::new();
    push_part(&mut s, "=== LINKEDIN PROFILE VALIDATION REPORT ===\n\n");
    let ts = now_rfc3339();
    push_kv(&mut s, "TIMESTAMP: ", ts.as_str());
    push_kv(&mut s, "INPUT_URL: ", url);
    push_part(&mut s, "\n");
    match outcome {
        Ok(_) => {
            push_success_block(&mut s, url);
        },
        Err(e) => {
            push_part(&mut s, "VALIDATION_RESULT: ERROR\n");
            push_part(&mut s, "VALIDATION_STATUS: FAILED\n");
            let msg = e.message();
            match e {
                LinkedInUrlError::InvalidUrl(_) => push_invalid_url_block(&mut s, msg.as_str()),
                LinkedInUrlError::NotLinkedInUrl => push_not_linkedin_block(
                    &mut s,
                    msg.as_str(),
                    url,
                ),
                LinkedInUrlError::NotProfileUrl => push_not_profile_block(&mut s, msg.as_str()),
                LinkedInUrlError::ProfileNotFound => push_not_found_block(&mut s, msg.as_str()),
                LinkedInUrlError::AuthenticationRequired => push_auth_required_block(
                    &mut s,
                    msg.as_str(),
                ),
                LinkedInUrlError::NetworkError(_) => push_network_error_block(&mut s, msg.as_str()),
                LinkedInUrlError::ClientBuildError(_) => push_client_build_block(
                    &mut s,
                    msg.as_str(),
                ),
            }
        },
    }
    push_part(&mut s, "\n=== END OF VALIDATION REPORT ===\n");
    s
}

/// The full report form of the facade: the shape gate and the classifier
/// decide the outcome, and the report for that outcome is rendered.
pub fn validate_for_llm_with(url: &str, probe: &ProbeOutcome) -> (r: String)
    ensures
        report_frame_markers(r@, url@),
        parse_failed_spec(url@) ==> exists|e: LinkedInUrlError|
            e is InvalidUrl && #[trigger] report_error_markers(r@, url@, e),
        wrong_domain_spec(url@) ==> report_error_markers(r@, url@, LinkedInUrlError::NotLinkedInUrl),
        wrong_path_spec(url@) ==> report_error_markers(r@, url@, LinkedInUrlError::NotProfileUrl),
        format_valid_spec(url@) ==> match *probe {
            ProbeOutcome::NotAttempted(m) => report_error_markers(
                r@,
                url@,
                LinkedInUrlError::ClientBuildError(m),
            ),
            ProbeOutcome::TransportFailed(m) => report_error_markers(
                r@,
                url@,
                LinkedInUrlError::NetworkError(m),
            ),
            ProbeOutcome::Response { final_url, body } => match classify_spec(
                final_url@,
                body@,
            ) {
                ProbeClassification::Exists => success_markers(r@) && success_username_marker(
                    r@,
                    url@,
                ),
                ProbeClassification::NotFound => report_error_markers(
                    r@,
                    url@,
                    LinkedInUrlError::ProfileNotFound,
                ),
                ProbeClassification::AuthRequired => report_error_markers(
                    r@,
                    url@,
                    LinkedInUrlError::AuthenticationRequired,
                ),
            },
        },
{
    let outcome = validate_profile_outcome(url, probe);
    let r = render_llm_report(url, &outcome);
    proof {
        if parse_failed_spec(url@) {
            let e = outcome->Err_0;
            assert(e is InvalidUrl && report_error_markers(r@, url@, e));
        }
    }
    r
}

} // verus!
