//! The classification rule: a user agent naming Safari is blocked, one
//! naming Firefox is allowed, anything else is unknown.
use vstd::prelude::*;
use vstd::string::StringExecFns;
use crate::substring::{contains, contains_str};

verus! {

/// The outcome of classifying a user agent.
#[derive(Clone, Copy, Debug, PartialEq, Eq, Structural)]
pub enum Decision {
    Block,
    Allow,
    Unknown,
}

/// The decision for the user agent `ua`: the Safari token is looked for
/// first, then the Firefox token; matching is case-sensitive.
pub open spec fn classify_spec(ua: Seq<char>) -> Decision {
    if contains(ua, "Safari"@) {
        Decision::Block
    } else if contains(ua, "Firefox"@) {
        Decision::Allow
    } else {
        Decision::Unknown
    }
}

/// The label that stands for a decision on the wire.
pub open spec fn label_spec(d: Decision) -> Seq<char> {
    match d {
        Decision::Block => "block"@,
        Decision::Allow => "allow"@,
        Decision::Unknown => "unknown"@,
    }
}

/// `s` is one of the three decision labels.
pub open spec fn is_decision_label(s: Seq<char>) -> bool {
    s == "block"@ || s == "allow"@ || s == "unknown"@
}

/// Classifies a user agent.
pub fn classify(user_agent: &str) -> (d: Decision)
    ensures
        d == classify_spec(user_agent@),
{
    if contains_str(user_agent, "Safari") {
        Decision::Block
    } else if contains_str(user_agent, "Firefox") {
        Decision::Allow
    } else {
        Decision::Unknown
    }
}

impl Decision {
    /// The label of this decision: "block", "allow" or "unknown".
    pub fn label(&self) -> (r: String)
        ensures
            r@ == label_spec(*self),
    {
        match self {
            Decision::Block => String::from_str("block"),
            Decision::Allow => String::from_str("allow"),
            Decision::Unknown => String::from_str("unknown"),
        }
    }
}

/// Every user agent, the empty one and any non-ASCII one included, gets
/// exactly one of the three labels.
pub proof fn lemma_classify_total(ua: Seq<char>)
    ensures
        is_decision_label(label_spec(classify_spec(ua))),
        label_spec(classify_spec(ua)) == "block"@ ==> classify_spec(ua) == Decision::Block,
        label_spec(classify_spec(ua)) == "allow"@ ==> classify_spec(ua) == Decision::Allow,
        label_spec(classify_spec(ua)) == "unknown"@ ==> classify_spec(ua) == Decision::Unknown,
{
    reveal_strlit("block");
    reveal_strlit("allow");
    reveal_strlit("unknown");
    assert("block"@[0] != "allow"@[0]);
    assert("block"@.len() != "unknown"@.len());
    assert("allow"@.len() != "unknown"@.len());
}

/// A user agent that holds both the Safari and the Firefox token is
/// blocked: the Safari rule comes first.
pub proof fn lemma_safari_before_firefox(ua: Seq<char>)
    requires
        contains(ua, "Safari"@),
        contains(ua, "Firefox"@),
    ensures
        classify_spec(ua) == Decision::Block,
{
}

/// Classifying is a function of the user agent alone: two classifications
/// of equal strings give the same decision and the same label.
pub proof fn lemma_classify_repeatable(a: Seq<char>, b: Seq<char>)
    requires
        a == b,
    ensures
        classify_spec(a) == classify_spec(b),
        label_spec(classify_spec(a)) == label_spec(classify_spec(b)),
{
}

} // verus!
