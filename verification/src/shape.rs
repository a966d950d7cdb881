//! URL shape matching: whether a candidate string parses as a URL, belongs to
//! the target domain, and has the `/in/<username>` profile path shape.

use vstd::prelude::*;
use vstd::string::StrSliceExecFns;
use vstd::string::StringExecFns;
use crate::strutil::str_eq;

verus! {

/// The outcome of generic URL parsing on a candidate string: `None` when the
/// string is not an absolute URL, otherwise the pair of the URL's domain
/// (`None` when the host is missing or not a domain name) and its path.
pub uninterp spec fn parse_outcome(s: Seq<char>) -> Option<(Option<Seq<char>>, Seq<char>)>;

/// The domain and path of a parsed candidate URL.
#[derive(Debug, Clone)]
pub struct UrlParts {
    /// The host, when it is a domain name.
    pub domain: Option<String>,
    /// The URL's path.
    pub path: String,
}

impl View for UrlParts {
    type V = (Option<Seq<char>>, Seq<char>);

    open spec fn view(&self) -> (Option<Seq<char>>, Seq<char>) {
        (
            match self.domain {
                Some(d) => Some(d@),
                None => None,
            },
            self.path@,
        )
    }
}

/// Relies on `url::Url::parse` for generic URL parsing, and on `Url::domain`
/// and `Url::path` to read the parsed URL's host domain and path. The parse
/// result is a function of the input string alone, named `parse_outcome`;
/// the message carried by the error is left unspecified.
#[verifier::external_body]
pub(crate) fn parse_url_parts(s: &str) -> (r: Result<UrlParts, String>)
    ensures
        (r is Ok) == (parse_outcome(s@) is Some),
        r matches Ok(p) ==> parse_outcome(s@) == Some(p@),
{
    match url::Url::parse(s) {
        Ok(u) => Ok(UrlParts {
            domain: u.domain().map(|d| d.to_string()),
            path: u.path().to_string(),
        }),
        Err(e) => Err(e.to_string()),
    }
}

/// The host is exactly the bare or the "www"-prefixed target domain.
pub open spec fn is_linkedin_domain_spec(d: Option<Seq<char>>) -> bool {
    match d {
        Some(h) => h == "linkedin.com"@ || h == "www.linkedin.com"@,
        None => false,
    }
}

/// A character allowed inside the username segment of a profile path.
pub open spec fn profile_char(c: char) -> bool {
    ||| 'a' <= c <= 'z'
    ||| 'A' <= c <= 'Z'
    ||| '0' <= c <= '9'
    ||| c == '-'
    ||| c == '.'
    ||| c == '_'
}

/// The end of the username segment: the path's length, less one when the
/// path ends with a slash.
pub open spec fn username_end(p: Seq<char>) -> int {
    if p.len() >= 5 && p[p.len() - 1] == '/' {
        p.len() - 1
    } else {
        p.len() as int
    }
}

/// The path is `/in/<segment>` with one non-empty segment of allowed
/// characters and an optional trailing slash.
pub open spec fn is_profile_path_spec(p: Seq<char>) -> bool {
    &&& p.len() >= 5
    &&& p[0] == '/' && p[1] == 'i' && p[2] == 'n' && p[3] == '/'
    &&& username_end(p) > 4
    &&& forall|i: int| 4 <= i < username_end(p) ==> profile_char(#[trigger] p[i])
}

/// The username segment of a profile path: the characters after `/in/`,
/// without the optional trailing slash.
pub open spec fn profile_username_spec(p: Seq<char>) -> Seq<char> {
    if p.len() >= 5 {
        p.subrange(4, username_end(p))
    } else {
        Seq::empty()
    }
}

fn is_profile_char(c: char) -> (r: bool)
    ensures
        r == profile_char(c),
{
    ('a' <= c && c <= 'z') || ('A' <= c && c <= 'Z') || ('0' <= c && c <= '9') || c == '-' || c
        == '.' || c == '_'
}

/// Whether the parsed URL's host is the target domain.
pub fn is_linkedin_domain(parts: &UrlParts) -> (r: bool)
    ensures
        r == is_linkedin_domain_spec(parts@.0),
{
    match &parts.domain {
        Some(d) => str_eq(d.as_str(), "linkedin.com") || str_eq(d.as_str(), "www.linkedin.com"),
        None => false,
    }
}

/// Whether a URL path has the profile shape `/in/<segment>` with an optional
/// trailing slash.
pub fn is_profile_path(path: &str) -> (r: bool)
    ensures
        r == is_profile_path_spec(path@),
{
    let n = path.unicode_len();
    if n < 5 {
        return false;
    }
    if path.get_char(0) != '/' || path.get_char(1) != 'i' || path.get_char(2) != 'n'
        || path.get_char(3) != '/' {
        return false;
    }
    let end = if path.get_char(n - 1) == '/' {
        n - 1
    } else {
        n
    };
    assert(end == username_end(path@));
    if end <= 4 {
        return false;
    }
    let mut i: usize = 4;
    while i < end
        invariant
            n == path@.len(),
            5 <= n <= usize::MAX,
            4 < end <= n,
            end == username_end(path@),
            4 <= i <= end,
            forall|t: int| 4 <= t < i ==> profile_char(#[trigger] path@[t]),
        decreases end - i,
    {
        if !is_profile_char(path.get_char(i)) {
            return false;
        }
        i += 1;
    }
    true
}

/// The candidate parses as a URL, its host is the target domain, and its
/// path has the profile shape.
pub open spec fn format_valid_spec(s: Seq<char>) -> bool {
    match parse_outcome(s) {
        Some(dp) => is_linkedin_domain_spec(dp.0) && is_profile_path_spec(dp.1),
        None => false,
    }
}

/// The candidate does not parse as a URL at all.
pub open spec fn parse_failed_spec(s: Seq<char>) -> bool {
    parse_outcome(s) is None
}

/// The candidate parses, but its host is not the target domain.
pub open spec fn wrong_domain_spec(s: Seq<char>) -> bool {
    match parse_outcome(s) {
        Some(dp) => !is_linkedin_domain_spec(dp.0),
        None => false,
    }
}

/// The candidate parses onto the target domain, but its path is not a
/// profile path.
pub open spec fn wrong_path_spec(s: Seq<char>) -> bool {
    match parse_outcome(s) {
        Some(dp) => is_linkedin_domain_spec(dp.0) && !is_profile_path_spec(dp.1),
        None => false,
    }
}

/// Checks the profile-URL format without any network access.
pub fn is_valid_linkedin_profile_format(url: &str) -> (r: bool)
    ensures
        r == format_valid_spec(url@),
{
    match parse_url_parts(url) {
        Ok(parts) => is_linkedin_domain(&parts) && is_profile_path(parts.path.as_str()),
        Err(_) => false,
    }
}

/// Extracts the username segment from a URL path, when the path has the
/// profile shape.
pub fn extract_username(path: &str) -> (r: Option<String>)
    ensures
        (r is Some) == is_profile_path_spec(path@),
        r matches Some(u) ==> u@ == profile_username_spec(path@),
{
    if !is_profile_path(path) {
        return None;
    }
    let n = path.unicode_len();
    let end = if path.get_char(n - 1) == '/' {
        n - 1
    } else {
        n
    };
    assert(end == username_end(path@));
    let seg = path.substring_char(4, end);
    Some(String::from_str(seg))
}

} // verus!
