//! The messages of the user-agent analysis service and its handler.
use vstd::prelude::*;
use crate::classifier::{classify, classify_spec, is_decision_label, label_spec, lemma_classify_total};

verus! {

/// A request to classify one user agent.
pub struct UserAgentRequest {
    pub user_agent: String,
}

/// The service's answer: one decision label.
pub struct UserAgentResponse {
    pub decision: String,
}

/// The handler of the service. It keeps no state between calls.
#[derive(Default)]
pub struct MyUserAgentAnalyzer {}

impl MyUserAgentAnalyzer {
    /// Answers a request with the label of its user agent's decision.
    pub fn analyze_user_agent(&self, request: UserAgentRequest) -> (r: UserAgentResponse)
        ensures
            r.decision@ == label_spec(classify_spec(request.user_agent@)),
            is_decision_label(r.decision@),
    {
        let d = classify(request.user_agent.as_str());
        proof {
            lemma_classify_total(request.user_agent@);
        }
        UserAgentResponse { decision: d.label() }
    }
}

} // verus!
