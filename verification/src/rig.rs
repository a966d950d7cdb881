//! A lean projection of the agent result for tool-calling frameworks: a
//! pass/fail flag, a percentage confidence, and one-line status and action
//! texts.

use vstd::prelude::*;
use vstd::string::StringExecFns;
use crate::agent::AIDecision;
use crate::agent::AIValidationResult;
use crate::strutil::dec_str;
use crate::strutil::u8_to_string;

verus! {

/// A validation result reduced to what a tool response needs.
#[derive(Debug, Clone)]
pub struct RigValidationResult {
    /// Simple pass/fail.
    pub valid: bool,
    /// The username, if one was found.
    pub username: Option<String>,
    /// Confidence as a percentage (0 to 100).
    pub confidence: u8,
    /// A human-readable status line.
    pub status: String,
    /// The suggested action for the calling agent.
    pub action: String,
}

/// The status line for each combination of decision, validity, confidence
/// and domain verification; earlier rows win.
pub open spec fn rig_status_spec(
    decision: AIDecision,
    is_valid: bool,
    confidence: u8,
    domain_verified: bool,
) -> Seq<char> {
    if decision == AIDecision::Accept && is_valid && confidence >= 90 {
        "✅ Verified LinkedIn profile"@
    } else if decision == AIDecision::Accept && is_valid {
        "✅ Valid LinkedIn profile (auth required)"@
    } else if decision == AIDecision::Retry {
        "⏳ Network issue - retry needed"@
    } else if decision == AIDecision::Reject && !is_valid && domain_verified {
        "❌ Not a LinkedIn profile URL"@
    } else if decision == AIDecision::Reject && !is_valid {
        "❌ Invalid LinkedIn URL"@
    } else {
        "❓ Unknown status"@
    }
}

/// The action text paired with each status line.
pub open spec fn rig_action_spec(
    decision: AIDecision,
    is_valid: bool,
    confidence: u8,
    domain_verified: bool,
) -> Seq<char> {
    if decision == AIDecision::Accept && is_valid && confidence >= 90 {
        "Use this profile with high confidence"@
    } else if decision == AIDecision::Accept && is_valid {
        "Accept this profile - LinkedIn is blocking verification but URL is valid"@
    } else if decision == AIDecision::Retry {
        "Wait a moment and try validating again"@
    } else if decision == AIDecision::Reject && !is_valid && domain_verified {
        "This is LinkedIn but not a profile - might be company page"@
    } else if decision == AIDecision::Reject && !is_valid {
        "Search for a different LinkedIn profile URL"@
    } else {
        "Review the URL manually"@
    }
}

/// Reduces an agent result to the tool-facing form, keeping the validity
/// flag, confidence and username, and picking the status and action texts
/// from the fixed table.
pub fn rig_project(result: &AIValidationResult) -> (r: RigValidationResult)
    ensures
        r.valid == result.is_valid,
        r.confidence == result.confidence,
        r.username == result.username,
        r.status@ == rig_status_spec(
            result.decision,
            result.is_valid,
            result.confidence,
            result.metadata.domain_verified,
        ),
        r.action@ == rig_action_spec(
            result.decision,
            result.is_valid,
            result.confidence,
            result.metadata.domain_verified,
        ),
{
    let username = match &result.username {
        Some(u) => Some(u.clone()),
        None => None,
    };
    let accept = match result.decision {
        AIDecision::Accept => true,
        _ => false,
    };
    let retry = match result.decision {
        AIDecision::Retry => true,
        _ => false,
    };
    let reject = match result.decision {
        AIDecision::Reject => true,
        _ => false,
    };
    let (status, action): (&'static str, &'static str) = if accept && result.is_valid
        && result.confidence >= 90 {
        ("✅ Verified LinkedIn profile", "Use this profile with high confidence")
    } else if accept && result.is_valid {
        (
            "✅ Valid LinkedIn profile (auth required)",
            "Accept this profile - LinkedIn is blocking verification but URL is valid",
        )
    } else if retry {
        ("⏳ Network issue - retry needed", "Wait a moment and try validating again")
    } else if reject && !result.is_valid && result.metadata.domain_verified {
        (
            "❌ Not a LinkedIn profile URL",
            "This is LinkedIn but not a profile - might be company page",
        )
    } else if reject && !result.is_valid {
        ("❌ Invalid LinkedIn URL", "Search for a different LinkedIn profile URL")
    } else {
        ("❓ Unknown status", "Review the URL manually")
    };
    RigValidationResult {
        valid: result.is_valid,
        username,
        confidence: result.confidence,
        status: String::from_str(status),
        action: String::from_str(action),
    }
}

/// The one-line text form of a tool result.
pub open spec fn rig_text_spec(r: RigValidationResult) -> Seq<char> {
    if r.valid {
        match r.username {
            Some(u) => r.status@ + " @"@ + u@ + " ("@ + dec_str(r.confidence as int)
                + "% confidence)"@,
            None => r.status@ + " ("@ + dec_str(r.confidence as int) + "% confidence)"@,
        }
    } else {
        r.status@ + " - "@ + r.action@
    }
}

/// Renders a tool result as a single line.
pub fn rig_text(result: &RigValidationResult) -> (r: String)
    ensures
        r@ == rig_text_spec(*result),
{
    let mut s = result.status.clone();
    if result.valid {
        match &result.username {
            Some(u) => {
                s.append(" @");
                s.append(u.as_str());
                s.append(" (");
                let conf = u8_to_string(result.confidence);
                s.append(conf.as_str());
                s.append("% confidence)");
            },
            None => {
                s.append(" (");
                let conf = u8_to_string(result.confidence);
                s.append(conf.as_str());
                s.append("% confidence)");
            },
        }
    } else {
        s.append(" - ");
        s.append(result.action.as_str());
    }
    assert(s@ =~= rig_text_spec(*result));
    s
}

} // verus!
