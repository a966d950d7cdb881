//! Validation of LinkedIn profile URLs.
//!
//! The library decides whether a URL string is a syntactically valid profile
//! URL for the target site, classifies the outcome of an existence probe
//! (final URL and response body after an HTTP round trip), and projects the
//! classified outcome into agent-facing results and a line-oriented report.
//! All decision logic is verified; the HTTP transport itself is left to the
//! caller, which hands the raw probe outcome in as plain values.

pub mod agent;
pub mod classify;
pub mod error;
pub mod facade;
pub mod laws;
pub mod report;
pub mod rig;
pub mod shape;
pub mod strutil;

pub use agent::AIDecision;
pub use agent::AIValidationResult;
pub use agent::ValidationMetadata;
pub use agent::ai_evaluate;
pub use classify::ProbeClassification;
pub use classify::classify_probe_response;
pub use classify::needs_bypass_retry;
pub use error::LinkedInUrlError;
pub use facade::ProbeOutcome;
pub use facade::check_profile_url_shape;
pub use facade::validate_profile_outcome;
pub use report::render_llm_report;
pub use report::validate_for_llm_with;
pub use rig::RigValidationResult;
pub use rig::rig_project;
pub use rig::rig_text;
pub use shape::UrlParts;
pub use shape::extract_username;
pub use shape::is_linkedin_domain;
pub use shape::is_profile_path;
pub use shape::is_valid_linkedin_profile_format;
pub use strutil::contains_seq;
pub use strutil::str_contains;
