//! The response classifier: a pure function from one probe response (final
//! URL after redirects, response body) to a classification. The site renders
//! a visually identical shell page for several distinct states, so the
//! classification rests on a small, ordered list of textual fingerprints.

use vstd::prelude::*;
use crate::strutil::contains_seq;
use crate::strutil::str_contains;

verus! {

/// The classification of one probe response.
#[derive(Clone, Copy, Debug, PartialEq, Eq, Structural)]
pub enum ProbeClassification {
    /// The profile page was served: the profile exists.
    Exists,
    /// The site signalled that the page does not exist.
    NotFound,
    /// The site demanded authentication instead of revealing whether the
    /// page exists.
    AuthRequired,
}

/// The final URL after redirects marks the site's not-found page.
pub open spec fn url_not_found_spec(u: Seq<char>) -> bool {
    contains_seq(u, "/404/"@) || contains_seq(u, "linkedin.com/404"@)
}

/// The body contains an authentication-wall or session-redirect marker.
pub open spec fn auth_wall_spec(b: Seq<char>) -> bool {
    contains_seq(b, "/authwall"@) || contains_seq(b, "sessionRedirect"@)
}

/// The apostrophe variants of "doesn't exist": plain, curly-quote, and
/// HTML/XML-entity-encoded.
pub open spec fn doesnt_exist_spec(b: Seq<char>) -> bool {
    ||| contains_seq(b, "doesn't exist"@)
    ||| contains_seq(b, "doesn’t exist"@)
    ||| contains_seq(b, "doesn&#39;t exist"@)
    ||| contains_seq(b, "doesn&apos;t exist"@)
}

/// The "this page doesn't exist" phrase, in each apostrophe variant.
pub open spec fn this_page_doesnt_exist_spec(b: Seq<char>) -> bool {
    ||| contains_seq(b, "This page doesn't exist"@)
    ||| contains_seq(b, "This page doesn’t exist"@)
    ||| contains_seq(b, "This page doesn&#39;t exist"@)
    ||| contains_seq(b, "This page doesn&apos;t exist"@)
}

/// The body contains one of the "this page doesn't exist" phrase variants,
/// or a compound phrase of two co-occurring substrings.
pub open spec fn not_found_body_spec(b: Seq<char>) -> bool {
    ||| this_page_doesnt_exist_spec(b)
    ||| contains_seq(b, "Page not found"@)
    ||| contains_seq(b, "Check the URL or return to LinkedIn home"@)
    ||| contains_seq(b, "return to LinkedIn home"@)
    ||| contains_seq(b, "Go to your feed"@) && doesnt_exist_spec(b)
}

/// First match wins: a not-found final URL, then an auth-wall body, then a
/// not-found body phrase; anything else counts as an existing profile.
pub open spec fn classify_spec(final_url: Seq<char>, body: Seq<char>) -> ProbeClassification {
    if url_not_found_spec(final_url) {
        ProbeClassification::NotFound
    } else if auth_wall_spec(body) {
        ProbeClassification::AuthRequired
    } else if not_found_body_spec(body) {
        ProbeClassification::NotFound
    } else {
        ProbeClassification::Exists
    }
}

fn doesnt_exist(b: &str) -> (r: bool)
    ensures
        r == doesnt_exist_spec(b@),
{
    str_contains(b, "doesn't exist") || str_contains(b, "doesn’t exist") || str_contains(
        b,
        "doesn&#39;t exist",
    ) || str_contains(b, "doesn&apos;t exist")
}

fn this_page_doesnt_exist(b: &str) -> (r: bool)
    ensures
        r == this_page_doesnt_exist_spec(b@),
{
    str_contains(b, "This page doesn't exist") || str_contains(b, "This page doesn’t exist")
        || str_contains(b, "This page doesn&#39;t exist") || str_contains(
        b,
        "This page doesn&apos;t exist",
    )
}

fn not_found_body(b: &str) -> (r: bool)
    ensures
        r == not_found_body_spec(b@),
{
    if this_page_doesnt_exist(b) {
        return true;
    }
    if str_contains(b, "Page not found") || str_contains(
        b,
        "Check the URL or return to LinkedIn home",
    ) || str_contains(b, "return to LinkedIn home") {
        return true;
    }
    str_contains(b, "Go to your feed") && doesnt_exist(b)
}

/// Classifies one probe response from its final URL (after any redirects)
/// and its body.
pub fn classify_probe_response(final_url: &str, body: &str) -> (r: ProbeClassification)
    ensures
        r == classify_spec(final_url@, body@),
{
    if str_contains(final_url, "/404/") || str_contains(final_url, "linkedin.com/404") {
        return ProbeClassification::NotFound;
    }
    if str_contains(body, "/authwall") || str_contains(body, "sessionRedirect") {
        return ProbeClassification::AuthRequired;
    }
    if not_found_body(body) {
        return ProbeClassification::NotFound;
    }
    ProbeClassification::Exists
}

/// Whether a probe response's status code is the distinguished bot-defense
/// code, after which the prober issues exactly one follow-up request with a
/// best-effort bypass header.
pub fn needs_bypass_retry(status: u16) -> (r: bool)
    ensures
        r == (status == 999),
{
    status == 999
}

} // verus!
