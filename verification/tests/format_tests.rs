//! Format validation tests: no network access is needed for any of these.

use credify::is_valid_linkedin_profile_format;

#[test]
fn test_valid_profile_format() {
    // Test with real valid profiles
    assert!(is_valid_linkedin_profile_format(
        "https://www.linkedin.com/in/hamze/"
    ));
    assert!(is_valid_linkedin_profile_format(
        "https://www.linkedin.com/in/hamzeghalebi/"
    ));
    assert!(is_valid_linkedin_profile_format(
        "https://www.linkedin.com/in/johndoe"
    ));
    assert!(is_valid_linkedin_profile_format(
        "https://linkedin.com/in/jane-doe"
    ));
    assert!(is_valid_linkedin_profile_format(
        "https://www.linkedin.com/in/john-doe-123/"
    ));
}

#[test]
fn test_invalid_profile_format() {
    assert!(!is_valid_linkedin_profile_format(
        "https://www.google.com/in/johndoe"
    ));
    assert!(!is_valid_linkedin_profile_format(
        "https://linkedin.com/company/microsoft"
    ));
    assert!(!is_valid_linkedin_profile_format("https://linkedin.com/"));
    assert!(!is_valid_linkedin_profile_format("not-a-url"));
}

#[test]
fn test_format_check_is_idempotent() {
    // The format check is a pure function of its input: a thousand calls on
    // the same candidate perform no network access and all agree.
    for _ in 0..1000 {
        assert!(is_valid_linkedin_profile_format(
            "https://www.linkedin.com/in/john-doe-123/"
        ));
    }
}

#[test]
fn test_format_rejects_other_subdomains() {
    assert!(!is_valid_linkedin_profile_format(
        "https://mail.linkedin.com/in/johndoe"
    ));
    assert!(!is_valid_linkedin_profile_format(
        "https://de.linkedin.com/in/johndoe"
    ));
}

#[test]
fn test_format_allows_query_and_fragment() {
    // The path predicate looks at the path alone.
    assert!(is_valid_linkedin_profile_format(
        "https://linkedin.com/in/user?with=params"
    ));
    assert!(is_valid_linkedin_profile_format(
        "https://linkedin.com/in/user#fragment"
    ));
}

#[test]
fn test_format_rejects_extra_segments() {
    assert!(!is_valid_linkedin_profile_format(
        "https://linkedin.com/in/user/extra"
    ));
    assert!(!is_valid_linkedin_profile_format(
        "https://linkedin.com/in//double-slash"
    ));
    assert!(!is_valid_linkedin_profile_format("https://linkedin.com/in/"));
    assert!(!is_valid_linkedin_profile_format("https://linkedin.com/in"));
}
