//! The closed taxonomy of validation errors, and their human-readable
//! messages.

use vstd::prelude::*;
use vstd::string::StringExecFns;

verus! {

/// Errors that can occur during profile URL validation.
#[derive(Debug, Clone, PartialEq, Eq)]
pub enum LinkedInUrlError {
    /// The provided string is not a valid URL; carries the parser's message.
    InvalidUrl(String),
    /// The URL is not from the target domain.
    NotLinkedInUrl,
    /// The URL is on the target domain but is not a profile URL.
    NotProfileUrl,
    /// The network request failed; carries the transport's message.
    NetworkError(String),
    /// The profile does not exist.
    ProfileNotFound,
    /// The site requires authentication, so existence cannot be determined.
    AuthenticationRequired,
    /// The HTTP client could not be built; carries the builder's message.
    ClientBuildError(String),
}

/// The human-readable message of each error kind.
pub open spec fn message_spec(e: LinkedInUrlError) -> Seq<char> {
    match e {
        LinkedInUrlError::InvalidUrl(m) => "[INVALID_URL_FORMAT] The provided URL is not a valid URL: "@
            + m@,
        LinkedInUrlError::NotLinkedInUrl => "[NOT_LINKEDIN_DOMAIN] The URL is not from linkedin.com or www.linkedin.com domain"@,
        LinkedInUrlError::NotProfileUrl => "[NOT_PROFILE_URL] The URL is not a LinkedIn profile URL (expected format: /in/username)"@,
        LinkedInUrlError::NetworkError(m) => "[NETWORK_ERROR] Failed to connect to LinkedIn: "@
            + m@,
        LinkedInUrlError::ProfileNotFound => "[PROFILE_NOT_FOUND] The LinkedIn profile does not exist (404)"@,
        LinkedInUrlError::AuthenticationRequired => "[AUTH_REQUIRED] LinkedIn requires authentication to verify this profile - cannot determine if profile exists"@,
        LinkedInUrlError::ClientBuildError(m) => "[CLIENT_BUILD_ERROR] Failed to create HTTP client: "@
            + m@,
    }
}

impl LinkedInUrlError {
    /// The message a caller can show for this error.
    pub fn message(&self) -> (r: String)
        ensures
            r@ == message_spec(*self),
    {
        match self {
            LinkedInUrlError::InvalidUrl(m) => {
                let mut s = String::from_str(
                    "[INVALID_URL_FORMAT] The provided URL is not a valid URL: ",
                );
                s.append(m.as_str());
                s
            },
            LinkedInUrlError::NotLinkedInUrl => String::from_str(
                "[NOT_LINKEDIN_DOMAIN] The URL is not from linkedin.com or www.linkedin.com domain",
            ),
            LinkedInUrlError::NotProfileUrl => String::from_str(
                "[NOT_PROFILE_URL] The URL is not a LinkedIn profile URL (expected format: /in/username)",
            ),
            LinkedInUrlError::NetworkError(m) => {
                let mut s = String::from_str("[NETWORK_ERROR] Failed to connect to LinkedIn: ");
                s.append(m.as_str());
                s
            },
            LinkedInUrlError::ProfileNotFound => String::from_str(
                "[PROFILE_NOT_FOUND] The LinkedIn profile does not exist (404)",
            ),
            LinkedInUrlError::AuthenticationRequired => String::from_str(
                "[AUTH_REQUIRED] LinkedIn requires authentication to verify this profile - cannot determine if profile exists",
            ),
            LinkedInUrlError::ClientBuildError(m) => {
                let mut s = String::from_str("[CLIENT_BUILD_ERROR] Failed to create HTTP client: ");
                s.append(m.as_str());
                s
            },
        }
    }
}

} // verus!
