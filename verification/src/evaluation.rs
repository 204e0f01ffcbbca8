//! Evaluation domain types: the pipeline's decision for a proposed action.

use vstd::prelude::*;
use vstd::string::StringExecFns;

use crate::ids::{fresh_id, now_millis};
use crate::text::{lower_bytes, utf8_bytes};

verus! {

/// Risk tier classification.
#[derive(Clone, Copy, PartialEq, Eq, Structural, Debug)]
pub enum RiskTier {
    /// Low risk: safe to auto-approve.
    Low,
    /// Medium risk: some signals present.
    Medium,
    /// High risk: requires human review.
    High,
    /// Critical risk: should be blocked.
    Critical,
}

impl RiskTier {
    /// The stable lower-case name of this tier.
    pub open spec fn label_spec(self) -> Seq<char> {
        match self {
            RiskTier::Low => "low"@,
            RiskTier::Medium => "medium"@,
            RiskTier::High => "high"@,
            RiskTier::Critical => "critical"@,
        }
    }

    /// The stable lower-case name of this tier.
    pub fn label(&self) -> (r: String)
        ensures
            r@ == self.label_spec(),
    {
        match self {
            RiskTier::Low => String::from_str("low"),
            RiskTier::Medium => String::from_str("medium"),
            RiskTier::High => String::from_str("high"),
            RiskTier::Critical => String::from_str("critical"),
        }
    }

    /// Parse a tier name, case-insensitively.
    pub fn parse(s: &str) -> (r: Result<RiskTier, String>)
        ensures
            r matches Ok(t) <==> {
                ||| lower_bytes(utf8_bytes(s@)) == utf8_bytes("low"@)
                ||| lower_bytes(utf8_bytes(s@)) == utf8_bytes("medium"@)
                ||| lower_bytes(utf8_bytes(s@)) == utf8_bytes("high"@)
                ||| lower_bytes(utf8_bytes(s@)) == utf8_bytes("critical"@)
            },
            r matches Ok(t) ==> lower_bytes(utf8_bytes(s@)) == utf8_bytes(t.label_spec()),
    {
        let low = crate::text::lower_vec(s.as_bytes());
        if crate::text::bytes_eq(low.as_slice(), "low".as_bytes()) {
            Ok(RiskTier::Low)
        } else if crate::text::bytes_eq(low.as_slice(), "medium".as_bytes()) {
            Ok(RiskTier::Medium)
        } else if crate::text::bytes_eq(low.as_slice(), "high".as_bytes()) {
            Ok(RiskTier::High)
        } else if crate::text::bytes_eq(low.as_slice(), "critical".as_bytes()) {
            Ok(RiskTier::Critical)
        } else {
            let mut msg = String::from_str("Unknown risk tier: ");
            msg.append(s);
            Err(msg)
        }
    }
}

impl core::str::FromStr for RiskTier {
    type Err = String;

    fn from_str(s: &str) -> Result<RiskTier, String> {
        RiskTier::parse(s)
    }
}

/// Decision status for an action.
#[derive(Clone, Copy, PartialEq, Eq, Structural, Debug)]
pub enum DecisionStatus {
    /// Action is allowed to proceed.
    Allow,
    /// Action requires human-in-the-loop review.
    RequireHitl,
    /// Action is blocked.
    Block,
}

impl DecisionStatus {
    /// The stable lower-case name of this decision.
    pub open spec fn label_spec(self) -> Seq<char> {
        match self {
            DecisionStatus::Allow => "allow"@,
            DecisionStatus::RequireHitl => "require_hitl"@,
            DecisionStatus::Block => "block"@,
        }
    }

    /// The stable lower-case name of this decision.
    pub fn label(&self) -> (r: String)
        ensures
            r@ == self.label_spec(),
    {
        match self {
            DecisionStatus::Allow => String::from_str("allow"),
            DecisionStatus::RequireHitl => String::from_str("require_hitl"),
            DecisionStatus::Block => String::from_str("block"),
        }
    }
}

/// Result of evaluating an agent action.
#[derive(Debug, Clone)]
pub struct EvaluationResult {
    /// Unique identifier for this evaluation.
    pub id: u128,
    /// Identifier of the agent action that was evaluated.
    pub agent_action_id: u128,
    /// Final decision.
    pub decision: DecisionStatus,
    /// Assessed risk tier.
    pub risk_tier: RiskTier,
    /// Human-readable reasons for the decision.
    pub reasons: Vec<String>,
    /// Stable identifiers of the rules that triggered.
    pub rule_hits: Vec<String>,
    /// Names of neural detectors that fired.
    pub neural_signals: Vec<String>,
    /// Creation time, milliseconds since the Unix epoch.
    pub created_at: i64,
}

impl EvaluationResult {
    /// Create a new evaluation result with a fresh identifier.
    pub fn new(
        agent_action_id: u128,
        decision: DecisionStatus,
        risk_tier: RiskTier,
        reasons: Vec<String>,
        rule_hits: Vec<String>,
    ) -> (r: EvaluationResult)
        ensures
            r.agent_action_id == agent_action_id,
            r.decision == decision,
            r.risk_tier == risk_tier,
            r.reasons == reasons,
            r.rule_hits == rule_hits,
            r.neural_signals@.len() == 0,
    {
        EvaluationResult {
            id: fresh_id(),
            agent_action_id,
            decision,
            risk_tier,
            reasons,
            rule_hits,
            neural_signals: Vec::new(),
            created_at: now_millis(),
        }
    }

    /// An Allow result with Low risk.
    pub fn allow(agent_action_id: u128) -> (r: EvaluationResult)
        ensures
            r.agent_action_id == agent_action_id,
            r.decision == DecisionStatus::Allow,
            r.risk_tier == RiskTier::Low,
            r.reasons@.len() == 1,
            r.reasons@[0]@ == "Action passed all safety checks"@,
            r.rule_hits@.len() == 0,
            r.neural_signals@.len() == 0,
    {
        let mut reasons: Vec<String> = Vec::new();
        reasons.push(String::from_str("Action passed all safety checks"));
        EvaluationResult::new(
            agent_action_id,
            DecisionStatus::Allow,
            RiskTier::Low,
            reasons,
            Vec::new(),
        )
    }

    /// A Block result with Critical risk.
    pub fn block(agent_action_id: u128, reasons: Vec<String>, rule_hits: Vec<String>) -> (r:
        EvaluationResult)
        ensures
            r.agent_action_id == agent_action_id,
            r.decision == DecisionStatus::Block,
            r.risk_tier == RiskTier::Critical,
            r.reasons == reasons,
            r.rule_hits == rule_hits,
            r.neural_signals@.len() == 0,
    {
        EvaluationResult::new(
            agent_action_id,
            DecisionStatus::Block,
            RiskTier::Critical,
            reasons,
            rule_hits,
        )
    }

    /// A RequireHitl result with High risk.
    pub fn require_hitl(agent_action_id: u128, reasons: Vec<String>, rule_hits: Vec<String>) -> (r:
        EvaluationResult)
        ensures
            r.agent_action_id == agent_action_id,
            r.decision == DecisionStatus::RequireHitl,
            r.risk_tier == RiskTier::High,
            r.reasons == reasons,
            r.rule_hits == rule_hits,
            r.neural_signals@.len() == 0,
    {
        EvaluationResult::new(
            agent_action_id,
            DecisionStatus::RequireHitl,
            RiskTier::High,
            reasons,
            rule_hits,
        )
    }
}

} // verus!
