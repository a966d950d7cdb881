//! Tests of the agent-facing projector. The probe outcome is handed in as
//! plain values, so every case runs without network access.

use credify::AIDecision;
use credify::ProbeOutcome;
use credify::ai_evaluate;

fn ts() -> String {
    String::from("2025-07-31T13:10:54.691091+00:00")
}

fn exists_probe(url: &str) -> ProbeOutcome {
    ProbeOutcome::Response {
        final_url: String::from(url),
        body: String::from("John Doe - Software Engineer | LinkedIn"),
    }
}

#[test]
fn test_ai_validate_valid_url() {
    let url = "https://linkedin.com/in/johndoe";
    let result = ai_evaluate(url, &exists_probe(url), ts());

    // Should always return a result, never panic
    assert!(result.confidence <= 100);
    assert!(!result.reason.is_empty());
    assert!(!result.metadata.timestamp.is_empty());

    // For valid URLs, username should be extracted
    if result.is_valid {
        assert!(result.username.is_some());
        assert_eq!(result.username.unwrap(), "johndoe");
    }
}

#[test]
fn test_ai_validate_invalid_domain() {
    let url = "https://google.com/in/johndoe";
    let result = ai_evaluate(url, &exists_probe(url), ts());

    assert!(!result.is_valid);
    assert_eq!(result.confidence, 100); // fully confident it's not LinkedIn
    assert!(matches!(result.decision, AIDecision::Reject));
    assert!(result.reason.contains("LinkedIn"));
    assert!(result.username.is_none());
}

#[test]
fn test_ai_validate_malformed_url() {
    let url = "not-a-url";
    let result = ai_evaluate(url, &exists_probe(url), ts());

    assert!(!result.is_valid);
    assert_eq!(result.confidence, 100); // fully confident it's invalid
    assert!(matches!(result.decision, AIDecision::Reject));
    assert!(result.reason.contains("URL"));
}

#[test]
fn test_confidence_levels() {
    // Test various URL patterns and their expected confidence levels
    let test_cases = vec![
        ("https://linkedin.com/in/valid-user", true, 70, 100),
        ("https://google.com/in/fake", false, 100, 100),
        ("not-a-url", false, 100, 100),
        ("https://linkedin.com/company/microsoft", false, 90, 100),
    ];

    for (url, should_be_valid, min_confidence, max_confidence) in test_cases {
        let result = ai_evaluate(url, &exists_probe(url), ts());

        if should_be_valid {
            // For valid URLs, confidence might vary based on the response
            assert!(result.confidence >= min_confidence && result.confidence <= max_confidence);
        } else {
            // For invalid URLs, we should be very confident
            assert!(result.confidence >= min_confidence);
        }
    }
}

#[test]
fn test_metadata_consistency() {
    let url = "https://linkedin.com/in/testuser";
    let result = ai_evaluate(url, &exists_probe(url), ts());

    // Metadata should always be populated
    assert!(!result.metadata.timestamp.is_empty());

    // Check boolean flags
    if result.is_valid {
        assert!(result.metadata.url_format_valid);
        assert!(result.metadata.domain_verified);
        assert!(result.metadata.profile_pattern_matched);
    }

    // Check error-specific metadata
    if !result.is_valid {
        assert!(result.metadata.error_type.is_some());
    }
}

#[test]
fn test_ai_decision_logic() {
    // Test that decisions align with validation results
    let test_cases = vec![
        ("https://linkedin.com/in/valid", AIDecision::Accept, true),
        ("https://google.com/profile", AIDecision::Reject, false),
        ("invalid-url", AIDecision::Reject, false),
    ];

    for (url, expected_decision_type, _) in test_cases {
        let result = ai_evaluate(url, &exists_probe(url), ts());

        match expected_decision_type {
            AIDecision::Accept => {
                // Accept means valid format at minimum
                if result.is_valid {
                    assert!(matches!(result.decision, AIDecision::Accept));
                }
            }
            AIDecision::Reject => {
                // Reject for definitely invalid URLs
                if !result.is_valid && result.confidence >= 90 {
                    assert!(matches!(result.decision, AIDecision::Reject));
                }
            }
            _ => {}
        }
    }
}

#[test]
fn test_username_extraction() {
    let test_cases = vec![
        ("https://linkedin.com/in/john-doe", Some("john-doe")),
        ("https://linkedin.com/in/user123", Some("user123")),
        ("https://linkedin.com/in/first.last", Some("first.last")),
        ("https://google.com/in/notlinkedin", None),
        ("not-a-url", None),
    ];

    for (url, expected_username) in test_cases {
        let result = ai_evaluate(url, &exists_probe(url), ts());
        assert_eq!(result.username, expected_username.map(String::from));
    }
}

#[test]
fn test_error_handling_never_panics() {
    // Test edge cases that should never cause panics
    let edge_cases = vec![
        "",
        " ",
        "http://",
        "https://",
        "linkedin.com",
        "/in/user",
        "https://linkedin.com",
        "https://linkedin.com/",
        "https://linkedin.com/in/",
        "https://linkedin.com/in",
        "https://linkedin.com/in//double-slash",
        "https://linkedin.com/in/user?with=params",
        "https://linkedin.com/in/user#fragment",
    ];

    for url in edge_cases {
        // Should never panic, always return a result
        let result = ai_evaluate(url, &exists_probe(url), ts());
        assert!(!result.reason.is_empty());
        assert!(result.confidence <= 100);
    }
}

#[test]
fn test_structured_error_messages() {
    // Ensure error messages are structured and helpful for AI agents
    let url = "https://google.com/in/user";
    let result = ai_evaluate(url, &exists_probe(url), ts());

    // Should contain actionable information
    assert!(result.reason.contains("LinkedIn"));
    assert!(result.reason.contains("domain") || result.reason.contains("URL"));

    // Should suggest clear action
    assert!(matches!(result.decision, AIDecision::Reject));
}

#[test]
fn test_ai_probe_outcomes() {
    let url = "https://www.linkedin.com/in/someone/";

    // A not-found page: rejection at high confidence.
    let not_found = ProbeOutcome::Response {
        final_url: String::from("https://www.linkedin.com/404/"),
        body: String::from("Page not found"),
    };
    let r = ai_evaluate(url, &not_found, ts());
    assert!(!r.is_valid);
    assert_eq!(r.confidence, 95);
    assert!(matches!(r.decision, AIDecision::Reject));
    assert_eq!(r.metadata.http_status, Some(404));
    assert_eq!(r.metadata.error_type.as_deref(), Some("NOT_FOUND"));

    // An auth wall: a positive signal, accepted at confidence 90.
    let auth = ProbeOutcome::Response {
        final_url: String::from(url),
        body: String::from("redirecting to /authwall"),
    };
    let r = ai_evaluate(url, &auth, ts());
    assert!(r.is_valid);
    assert_eq!(r.confidence, 90);
    assert!(matches!(r.decision, AIDecision::Accept));
    assert_eq!(r.metadata.http_status, Some(999));
    assert_eq!(r.metadata.error_type.as_deref(), Some("AUTH_REQUIRED"));

    // A transport failure: retry later.
    let failed = ProbeOutcome::TransportFailed(String::from("connection timed out"));
    let r = ai_evaluate(url, &failed, ts());
    assert!(r.is_valid);
    assert_eq!(r.confidence, 60);
    assert!(matches!(r.decision, AIDecision::Retry));
    assert_eq!(r.metadata.error_type.as_deref(), Some("NETWORK_ERROR"));

    // No client could be built: accepted in degraded mode.
    let no_client = ProbeOutcome::NotAttempted(String::from("TLS backend unavailable"));
    let r = ai_evaluate(url, &no_client, ts());
    assert!(r.is_valid);
    assert_eq!(r.confidence, 70);
    assert!(matches!(r.decision, AIDecision::Accept));
    assert_eq!(r.metadata.error_type.as_deref(), Some("VALIDATOR_ERROR"));

    // A clean profile page: accepted at full confidence.
    let r = ai_evaluate(url, &exists_probe(url), ts());
    assert!(r.is_valid);
    assert_eq!(r.confidence, 100);
    assert!(matches!(r.decision, AIDecision::Accept));
    assert_eq!(r.metadata.http_status, Some(200));
    assert_eq!(r.metadata.error_type, None);
    assert_eq!(r.username.as_deref(), Some("someone"));
}
