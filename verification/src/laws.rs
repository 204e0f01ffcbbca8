//! System-wide guarantees of the evaluation pipeline, stated and proved
//! over the coordinator's decision function.

use vstd::prelude::*;

use crate::action::{ActionType, AgentAction};
use crate::coordinator::EvaluationCoordinator;
use crate::evaluation::{DecisionStatus, RiskTier};
use crate::firewall::{
    first_blocking, lemma_first_blocking, lemma_matched_keywords_nonempty, scan_text,
    FirewallVariant,
};
use crate::policy::{amount_rules_spec, same_account};
use crate::text::{contains_ci, utf8_bytes};

verus! {

/// The decision and the risk tier always agree: Block comes with
/// Critical risk, review with High risk, and an allowed action is Low
/// or Medium risk.
pub proof fn lemma_decision_risk_consistent(c: EvaluationCoordinator, a: AgentAction)
    ensures
        c.spec_decision(a) == DecisionStatus::Block ==> c.spec_risk(a) == RiskTier::Critical,
        c.spec_decision(a) == DecisionStatus::RequireHitl ==> c.spec_risk(a) == RiskTier::High,
        c.spec_decision(a) == DecisionStatus::Allow ==> (c.spec_risk(a) == RiskTier::Low
            || c.spec_risk(a) == RiskTier::Medium),
{
}

/// A blocked evaluation always names at least one rule hit.
pub proof fn lemma_block_names_rules(c: EvaluationCoordinator, a: AgentAction)
    ensures
        c.spec_decision(a) == DecisionStatus::Block ==> c.spec_rule_hits(a).len() > 0,
{
    if c.spec_decision(a) == DecisionStatus::Block && !c.fw_blocks(a) {
        assert(crate::policy::aggregate_decision(c.rules(a)) == DecisionStatus::Block);
        assert(c.rules(a).len() > 0);
    }
}

/// A hard-block keyword present anywhere in the scannable text forces a
/// Block decision, regardless of every other signal: `f` is any keyword
/// firewall among the coordinator's members and `kw` any of its block
/// keywords occurring in the action's scannable text.
pub proof fn lemma_hard_keyword_blocks(
    c: EvaluationCoordinator,
    a: AgentAction,
    i: int,
    j: int,
)
    requires
        0 <= i < c.firewall.firewalls@.len(),
        c.firewall.firewalls@[i] matches FirewallVariant::Keyword(f) && 0 <= j
            < f.block_keywords.deep_view().len() && contains_ci(
            scan_text(a),
            utf8_bytes(f.block_keywords.deep_view()[j]),
        ),
    ensures
        c.spec_decision(a) == DecisionStatus::Block,
{
    let f = c.firewall.firewalls@[i]->Keyword_0;
    lemma_matched_keywords_nonempty(scan_text(a), f.block_keywords.deep_view());
    assert(c.firewall.firewalls@[i].blocks(scan_text(a)));
    lemma_first_blocking(c.firewall.firewalls@, scan_text(a));
    if first_blocking(c.firewall.firewalls@, scan_text(a)) is None {
        assert(!c.firewall.firewalls@[i].blocks(scan_text(a)));
    }
    assert(c.fw_blocks(a));
}

/// A monetary action whose amount exceeds the review threshold is never
/// allowed to run autonomously.
pub proof fn lemma_over_threshold_never_allowed(c: EvaluationCoordinator, a: AgentAction)
    requires
        a.action_type == ActionType::TransferFunds || a.action_type == ActionType::PayBill,
        a.payload.amount matches Some(amount) && amount
            > c.policy_engine.config.hitl_threshold,
    ensures
        c.spec_decision(a) != DecisionStatus::Allow,
{
    assert(a.extract_amount_spec() == a.payload.amount);
    assert(c.rules(a)[0].3);
    assert(crate::policy::aggregate_decision(c.rules(a)) != DecisionStatus::Allow);
}

/// A transfer whose source and destination accounts are the same is
/// blocked, as long as the alignment checker does not fire first; a
/// misaligned same-account transfer is held for review instead.
pub proof fn lemma_self_transfer_blocked(c: EvaluationCoordinator, a: AgentAction)
    requires
        a.action_type == ActionType::TransferFunds,
        same_account(a.payload),
        !c.misaligned(a),
    ensures
        c.spec_decision(a) == DecisionStatus::Block,
{
    let n = amount_rules_spec(c.policy_engine.config, a).len();
    assert(c.rules(a)[n as int].2);
    assert(crate::policy::aggregate_decision(c.rules(a)) == DecisionStatus::Block);
}

/// The decision is a pure function of the action and the configured
/// components: evaluating equal actions with the same coordinator gives
/// the same decision and risk tier.
pub proof fn lemma_decision_deterministic(
    c: EvaluationCoordinator,
    a1: AgentAction,
    a2: AgentAction,
)
    requires
        a1 == a2,
    ensures
        c.spec_decision(a1) == c.spec_decision(a2),
        c.spec_risk(a1) == c.spec_risk(a2),
{
}

} // verus!
