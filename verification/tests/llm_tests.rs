//! Tests of the structured, line-oriented report form.

use credify::LinkedInUrlError;
use credify::ProbeOutcome;
use credify::render_llm_report;
use credify::validate_for_llm_with;

fn unreachable_probe() -> ProbeOutcome {
    ProbeOutcome::TransportFailed(String::from("connection refused"))
}

#[test]
fn test_validate_for_llm_success() {
    let result = validate_for_llm_with("https://www.linkedin.com/in/valid-format", &unreachable_probe());
    assert!(result.contains("VALIDATION_RESULT:"));
    assert!(result.contains("SUGGESTED_ACTIONS:"));
    assert!(result.contains("=== LINKEDIN PROFILE VALIDATION REPORT ==="));
    assert!(result.contains("TIMESTAMP:"));
    assert!(result.contains("INPUT_URL:"));
}

#[test]
fn test_validate_for_llm_invalid_url() {
    let result = validate_for_llm_with("not-a-url", &unreachable_probe());
    assert!(result.contains("VALIDATION_RESULT: ERROR"));
    assert!(result.contains("ERROR_TYPE: INVALID_URL_FORMAT"));
    assert!(result.contains("SUGGESTED_ACTIONS:"));
    assert!(result.contains("ERROR_SEVERITY: HIGH"));
    assert!(result.contains("DETAILED_EXPLANATION:"));
}

#[test]
fn test_validate_for_llm_not_linkedin() {
    let result = validate_for_llm_with("https://www.google.com/in/someone", &unreachable_probe());
    assert!(result.contains("VALIDATION_RESULT: ERROR"));
    assert!(result.contains("ERROR_TYPE: NOT_LINKEDIN_DOMAIN"));
    assert!(result.contains("SUGGESTED_ACTIONS:"));
    assert!(result.contains("ERROR_SEVERITY: MEDIUM"));
    assert!(result.contains("ACTUAL_DOMAIN: www.google.com"));
}

#[test]
fn test_validate_for_llm_not_profile() {
    let result = validate_for_llm_with("https://www.linkedin.com/company/microsoft", &unreachable_probe());
    assert!(result.contains("VALIDATION_RESULT: ERROR"));
    assert!(result.contains("ERROR_TYPE: NOT_PROFILE_URL"));
    assert!(result.contains("SUGGESTED_ACTIONS:"));
    assert!(result.contains("URL_TYPE: NON_PROFILE_LINKEDIN_URL"));
    assert!(result.contains("RECOMMENDED_NEXT_STEP:"));
}

#[test]
fn test_llm_report_success_block() {
    let url = "https://www.linkedin.com/in/john-doe-123/";
    let probe = ProbeOutcome::Response {
        final_url: String::from(url),
        body: String::from("John Doe | LinkedIn"),
    };
    let result = validate_for_llm_with(url, &probe);
    assert!(result.contains("VALIDATION_RESULT: SUCCESS"));
    assert!(result.contains("VALIDATION_STATUS: PASSED"));
    assert!(result.contains("PROFILE_EXISTS: TRUE"));
    assert!(result.contains("LINKEDIN_USERNAME: john-doe-123"));
    assert!(result.contains("=== END OF VALIDATION REPORT ==="));
}

#[test]
fn test_llm_report_not_found_block() {
    let url = "https://www.linkedin.com/in/no-such-user/";
    let probe = ProbeOutcome::Response {
        final_url: String::from("https://www.linkedin.com/404/"),
        body: String::from("Page not found"),
    };
    let result = validate_for_llm_with(url, &probe);
    assert!(result.contains("ERROR_TYPE: PROFILE_NOT_FOUND"));
    assert!(result.contains("PROFILE_EXISTS: FALSE"));
    assert!(result.contains("HTTP_STATUS: 404"));
    assert!(result.contains("ERROR_SEVERITY: LOW"));
}

#[test]
fn test_llm_report_auth_required_block() {
    let url = "https://www.linkedin.com/in/someone/";
    let probe = ProbeOutcome::Response {
        final_url: String::from(url),
        body: String::from("location: /authwall"),
    };
    let result = validate_for_llm_with(url, &probe);
    assert!(result.contains("ERROR_TYPE: AUTH_REQUIRED"));
    assert!(result.contains("LINKEDIN_RESPONSE: AUTHENTICATION_WALL"));
    assert!(result.contains("PROFILE_EXISTS: UNKNOWN"));
    assert!(result.contains("RECOMMENDED_NEXT_STEP: ACCEPT this URL as valid"));
}

#[test]
fn test_llm_report_network_error_block() {
    let url = "https://www.linkedin.com/in/someone/";
    let result = validate_for_llm_with(url, &unreachable_probe());
    assert!(result.contains("ERROR_TYPE: NETWORK_ERROR"));
    assert!(result.contains("NETWORK_STATUS: FAILED"));
    assert!(result.contains("ERROR_MESSAGE: [NETWORK_ERROR] Failed to connect to LinkedIn: connection refused"));
}

#[test]
fn test_llm_report_client_build_block() {
    let url = "https://www.linkedin.com/in/someone/";
    let probe = ProbeOutcome::NotAttempted(String::from("TLS backend unavailable"));
    let result = validate_for_llm_with(url, &probe);
    assert!(result.contains("ERROR_TYPE: VALIDATOR_INITIALIZATION_FAILED"));
    assert!(result.contains("ERROR_SEVERITY: CRITICAL"));
}

#[test]
fn test_render_report_echoes_outcome() {
    let report = render_llm_report(
        "https://www.linkedin.com/in/someone/",
        &Err(LinkedInUrlError::ProfileNotFound),
    );
    assert!(report.contains("ERROR_TYPE: PROFILE_NOT_FOUND"));
    assert!(report.contains("ERROR_MESSAGE: [PROFILE_NOT_FOUND] The LinkedIn profile does not exist (404)"));
    assert!(report.contains("INPUT_URL: https://www.linkedin.com/in/someone/"));
}
