use vstd::prelude::*;

verus! {

/// Conference-specific instructions for agents.
#[derive(Debug, Clone, PartialEq)]
pub struct AgentConfig {
    pub conference_context: Option<String>,
    pub proposal_review_config: Option<String>,
    pub sponsor_crm_config: Option<String>,
}

} // verus!
