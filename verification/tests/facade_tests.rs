//! Tests of the boolean-or-error facade, the error messages, the bypass
//! decision, and the tool-facing projection.

use credify::LinkedInUrlError;
use credify::ProbeOutcome;
use credify::ai_evaluate;
use credify::check_profile_url_shape;
use credify::extract_username;
use credify::needs_bypass_retry;
use credify::rig_project;
use credify::rig_text;
use credify::str_contains;
use credify::validate_profile_outcome;

#[test]
fn test_shape_gate_orders_errors() {
    assert!(matches!(
        check_profile_url_shape("not-a-url"),
        Err(LinkedInUrlError::InvalidUrl(_))
    ));
    assert!(matches!(
        check_profile_url_shape("https://www.google.com/in/someone"),
        Err(LinkedInUrlError::NotLinkedInUrl)
    ));
    assert!(matches!(
        check_profile_url_shape("https://linkedin.com/company/microsoft"),
        Err(LinkedInUrlError::NotProfileUrl)
    ));
    let parts = check_profile_url_shape("https://www.linkedin.com/in/johndoe").unwrap();
    assert_eq!(parts.domain.as_deref(), Some("www.linkedin.com"));
    assert_eq!(parts.path, "/in/johndoe");
}

#[test]
fn test_shape_gate_edge_inputs() {
    // Malformed edge inputs yield a well-formed error with a non-empty
    // message; none of them reaches the probe stage.
    let edge_cases = vec!["", "http://", "linkedin.com", "/in/user"];
    for url in edge_cases {
        let e = check_profile_url_shape(url).unwrap_err();
        assert!(!e.message().is_empty(), "url: '{}'", url);
    }
}

#[test]
fn test_validate_profile_outcome_cases() {
    let url = "https://www.linkedin.com/in/someone/";

    let exists = ProbeOutcome::Response {
        final_url: String::from(url),
        body: String::from("A profile page"),
    };
    assert_eq!(validate_profile_outcome(url, &exists), Ok(true));

    let not_found = ProbeOutcome::Response {
        final_url: String::from("https://www.linkedin.com/404/"),
        body: String::from(""),
    };
    assert!(matches!(
        validate_profile_outcome(url, &not_found),
        Err(LinkedInUrlError::ProfileNotFound)
    ));

    let auth = ProbeOutcome::Response {
        final_url: String::from(url),
        body: String::from("see /authwall for details"),
    };
    assert!(matches!(
        validate_profile_outcome(url, &auth),
        Err(LinkedInUrlError::AuthenticationRequired)
    ));

    let failed = ProbeOutcome::TransportFailed(String::from("timeout"));
    assert_eq!(
        validate_profile_outcome(url, &failed),
        Err(LinkedInUrlError::NetworkError(String::from("timeout")))
    );

    let no_client = ProbeOutcome::NotAttempted(String::from("no TLS"));
    assert_eq!(
        validate_profile_outcome(url, &no_client),
        Err(LinkedInUrlError::ClientBuildError(String::from("no TLS")))
    );

    // A shape failure short-circuits: the probe outcome is never consulted.
    assert!(matches!(
        validate_profile_outcome("https://www.google.com/in/someone", &exists),
        Err(LinkedInUrlError::NotLinkedInUrl)
    ));
}

#[test]
fn test_error_messages() {
    assert_eq!(
        LinkedInUrlError::NotLinkedInUrl.message(),
        "[NOT_LINKEDIN_DOMAIN] The URL is not from linkedin.com or www.linkedin.com domain"
    );
    assert_eq!(
        LinkedInUrlError::NotProfileUrl.message(),
        "[NOT_PROFILE_URL] The URL is not a LinkedIn profile URL (expected format: /in/username)"
    );
    assert_eq!(
        LinkedInUrlError::ProfileNotFound.message(),
        "[PROFILE_NOT_FOUND] The LinkedIn profile does not exist (404)"
    );
    assert_eq!(
        LinkedInUrlError::AuthenticationRequired.message(),
        "[AUTH_REQUIRED] LinkedIn requires authentication to verify this profile - cannot determine if profile exists"
    );
    assert_eq!(
        LinkedInUrlError::InvalidUrl(String::from("empty host")).message(),
        "[INVALID_URL_FORMAT] The provided URL is not a valid URL: empty host"
    );
    assert_eq!(
        LinkedInUrlError::NetworkError(String::from("timeout")).message(),
        "[NETWORK_ERROR] Failed to connect to LinkedIn: timeout"
    );
    assert_eq!(
        LinkedInUrlError::ClientBuildError(String::from("no TLS")).message(),
        "[CLIENT_BUILD_ERROR] Failed to create HTTP client: no TLS"
    );
}

#[test]
fn test_needs_bypass_retry() {
    assert!(needs_bypass_retry(999));
    assert!(!needs_bypass_retry(200));
    assert!(!needs_bypass_retry(404));
    assert!(!needs_bypass_retry(403));
}

#[test]
fn test_extract_username_cases() {
    assert_eq!(extract_username("/in/john-doe").as_deref(), Some("john-doe"));
    assert_eq!(
        extract_username("/in/first.last").as_deref(),
        Some("first.last")
    );
    assert_eq!(
        extract_username("/in/john-doe-123/").as_deref(),
        Some("john-doe-123")
    );
    assert_eq!(extract_username("/company/microsoft"), None);
    assert_eq!(extract_username("/in/"), None);
    assert_eq!(extract_username("/"), None);
}

#[test]
fn test_str_contains() {
    assert!(str_contains("hello world", "lo wo"));
    assert!(str_contains("hello", "hello"));
    assert!(str_contains("hello", ""));
    assert!(!str_contains("hello", "hello world"));
    assert!(!str_contains("abc", "d"));
    assert!(str_contains("ababc", "abc"));
}

#[test]
fn test_rig_projection_rows() {
    let url = "https://www.linkedin.com/in/someone/";
    let ts = String::from("2025-07-31T13:10:54.691091+00:00");

    let exists = ProbeOutcome::Response {
        final_url: String::from(url),
        body: String::from("A profile page"),
    };
    let rig = rig_project(&ai_evaluate(url, &exists, ts.clone()));
    assert!(rig.valid);
    assert_eq!(rig.confidence, 100);
    assert_eq!(rig.status, "\u{2705} Verified LinkedIn profile");
    assert_eq!(rig.action, "Use this profile with high confidence");
    assert_eq!(
        rig_text(&rig),
        "\u{2705} Verified LinkedIn profile @someone (100% confidence)"
    );

    let no_client = ProbeOutcome::NotAttempted(String::from("no TLS"));
    let rig = rig_project(&ai_evaluate(url, &no_client, ts.clone()));
    assert!(rig.valid);
    assert_eq!(rig.confidence, 70);
    assert_eq!(rig.status, "\u{2705} Valid LinkedIn profile (auth required)");

    let failed = ProbeOutcome::TransportFailed(String::from("timeout"));
    let rig = rig_project(&ai_evaluate(url, &failed, ts.clone()));
    assert_eq!(rig.status, "\u{23f3} Network issue - retry needed");
    assert_eq!(
        rig_text(&rig),
        "\u{23f3} Network issue - retry needed @someone (60% confidence)"
    );

    let rig = rig_project(&ai_evaluate(
        "https://linkedin.com/company/microsoft",
        &no_client,
        ts.clone(),
    ));
    assert!(!rig.valid);
    assert_eq!(rig.status, "\u{274c} Not a LinkedIn profile URL");
    assert_eq!(
        rig_text(&rig),
        "\u{274c} Not a LinkedIn profile URL - This is LinkedIn but not a profile - might be company page"
    );

    let rig = rig_project(&ai_evaluate("not-a-url", &no_client, ts));
    assert!(!rig.valid);
    assert_eq!(rig.status, "\u{274c} Invalid LinkedIn URL");
    assert_eq!(rig.action, "Search for a different LinkedIn profile URL");
}
