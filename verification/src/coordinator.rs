//! Evaluation coordinator: runs the three layers and merges their
//! outcomes into one decision.
//!
//! Pipeline order: input firewall, then alignment checker, then policy
//! engine. A firewall Block short-circuits everything; misalignment
//! always forces review; otherwise the policy aggregate decides, with
//! firewall suspicion escalating an Allow to review.

use vstd::prelude::*;
use vstd::string::StringExecFns;

use crate::action::AgentAction;
use crate::alignment::{AlignmentOutcome, AlignmentVariant};
use crate::evaluation::{DecisionStatus, EvaluationResult, RiskTier};
use crate::firewall::{first_blocking, scan_text, CompositeFirewall, FirewallOutcome};
use crate::hitl::HitlTask;
use crate::ids::{fresh_id, now_millis};
use crate::policy::{
    aggregate_decision, policy_rules_spec, ConfigPolicyEngine, PolicyOutcome, RuleSpec,
};
use crate::text::clone_strings;

verus! {

/// Result of the full evaluation pipeline.
#[derive(Debug)]
pub struct CoordinatorResult {
    /// The evaluation record.
    pub evaluation: EvaluationResult,
    /// The review task, when one was created.
    pub hitl_task: Option<HitlTask>,
}

/// How the final decision is merged from the three layers' outcomes.
pub open spec fn merge_decision_spec(
    blocked: bool,
    misaligned: bool,
    policy: DecisionStatus,
    suspicious: bool,
) -> DecisionStatus {
    if blocked {
        DecisionStatus::Block
    } else if misaligned {
        DecisionStatus::RequireHitl
    } else {
        match policy {
            DecisionStatus::Block => DecisionStatus::Block,
            DecisionStatus::RequireHitl => DecisionStatus::RequireHitl,
            DecisionStatus::Allow => if suspicious {
                DecisionStatus::RequireHitl
            } else {
                DecisionStatus::Allow
            },
        }
    }
}

/// How the risk tier follows from the decision and the signals.
pub open spec fn merge_risk_spec(
    decision: DecisionStatus,
    suspicious: bool,
    any_rule: bool,
) -> RiskTier {
    match decision {
        DecisionStatus::Block => RiskTier::Critical,
        DecisionStatus::RequireHitl => RiskTier::High,
        DecisionStatus::Allow => if suspicious || any_rule {
            RiskTier::Medium
        } else {
            RiskTier::Low
        },
    }
}

/// Orchestrates the layered safety evaluation pipeline.
#[derive(Debug)]
pub struct EvaluationCoordinator {
    /// The input firewall, first layer.
    pub firewall: CompositeFirewall,
    /// The alignment checker, second layer.
    pub alignment_checker: AlignmentVariant,
    /// The policy engine, third layer.
    pub policy_engine: ConfigPolicyEngine,
}

impl EvaluationCoordinator {
    /// Create a coordinator over the given components.
    pub fn new(
        firewall: CompositeFirewall,
        alignment_checker: AlignmentVariant,
        policy_engine: ConfigPolicyEngine,
    ) -> (r: EvaluationCoordinator)
        ensures
            r.firewall == firewall,
            r.alignment_checker == alignment_checker,
            r.policy_engine == policy_engine,
    {
        EvaluationCoordinator { firewall, alignment_checker, policy_engine }
    }

    /// The firewall blocks this action.
    pub open spec fn fw_blocks(self, a: AgentAction) -> bool {
        self.firewall.blocks(scan_text(a))
    }

    /// The firewall finds this action suspicious without blocking it.
    pub open spec fn fw_suspicious(self, a: AgentAction) -> bool {
        !self.fw_blocks(a) && self.firewall.suspicious_reasons(scan_text(a)).len() > 0
    }

    /// The alignment checker flags this action.
    pub open spec fn misaligned(self, a: AgentAction) -> bool {
        self.alignment_checker.misaligned(a)
    }

    /// The policy rules this coordinator's engine reports.
    pub open spec fn rules(self, a: AgentAction) -> Seq<RuleSpec> {
        policy_rules_spec(self.policy_engine.config, a)
    }

    /// The final decision for this action: a pure function of the
    /// action and the configured components.
    pub open spec fn spec_decision(self, a: AgentAction) -> DecisionStatus {
        merge_decision_spec(
            self.fw_blocks(a),
            self.misaligned(a),
            aggregate_decision(self.rules(a)),
            self.fw_suspicious(a),
        )
    }

    /// The final risk tier for this action.
    pub open spec fn spec_risk(self, a: AgentAction) -> RiskTier {
        merge_risk_spec(self.spec_decision(a), self.fw_suspicious(a), self.rules(a).len() > 0)
    }

    /// The reasons the firewall reports when it blocks.
    pub open spec fn fw_blocked_reasons(self, a: AgentAction) -> Seq<Seq<char>> {
        match first_blocking(self.firewall.firewalls@, scan_text(a)) {
            Some(i) => self.firewall.firewalls@[i].blocked_reasons(scan_text(a)),
            None => Seq::empty(),
        }
    }

    /// The machine-readable rule hits of the evaluation, in layer order.
    pub open spec fn spec_rule_hits(self, a: AgentAction) -> Seq<Seq<char>> {
        if self.fw_blocks(a) {
            seq!["FIREWALL_BLOCK"@]
        } else {
            (if self.fw_suspicious(a) {
                seq!["FIREWALL_SUSPICIOUS"@]
            } else {
                Seq::<Seq<char>>::empty()
            }) + (if self.misaligned(a) {
                seq!["ALIGNMENT_MISALIGNED"@]
            } else {
                Seq::<Seq<char>>::empty()
            }) + self.rules(a).map(|_i: int, r: RuleSpec| r.0)
        }
    }

    /// The human-readable reasons of the evaluation, in layer order.
    pub open spec fn spec_reasons(self, a: AgentAction) -> Seq<Seq<char>> {
        if self.fw_blocks(a) {
            self.fw_blocked_reasons(a)
        } else {
            self.firewall.suspicious_reasons(scan_text(a)) + (if self.misaligned(a) {
                self.alignment_checker.misaligned_reasons(a)
            } else {
                Seq::<Seq<char>>::empty()
            }) + self.rules(a).map(|_i: int, r: RuleSpec| r.1)
        }
    }

    /// The neural signals of the evaluation.
    pub open spec fn spec_signals(self, a: AgentAction) -> Seq<Seq<char>> {
        if self.fw_blocks(a) {
            seq!["firewall_triggered"@]
        } else {
            Seq::empty()
        }
    }

    /// Merge the three layers' outcomes into a decision and a risk tier.
    fn merge_outcomes(
        &self,
        firewall: &FirewallOutcome,
        alignment: &AlignmentOutcome,
        policy: &PolicyOutcome,
    ) -> (r: (DecisionStatus, RiskTier))
        requires
            policy.strictest_spec() is Some,
        ensures
            r.0 == merge_decision_spec(
                firewall is Blocked,
                alignment is Misaligned,
                policy.strictest_spec()->Some_0,
                firewall is Suspicious,
            ),
            r.1 == merge_risk_spec(
                r.0,
                firewall is Suspicious,
                policy.triggered_rules@.len() > 0,
            ),
    {
        if firewall.is_blocked() {
            return (DecisionStatus::Block, RiskTier::Critical);
        }

        if alignment.is_misaligned() {
            return (DecisionStatus::RequireHitl, RiskTier::High);
        }

        let policy_decision = policy.strictest_decision();

        let decision = match policy_decision {
            Some(DecisionStatus::Block) => DecisionStatus::Block,
            Some(DecisionStatus::RequireHitl) => DecisionStatus::RequireHitl,
            Some(DecisionStatus::Allow) | None => {
                if firewall.is_suspicious() {
                    DecisionStatus::RequireHitl
                } else {
                    DecisionStatus::Allow
                }
            },
        };

        let risk_tier = match decision {
            DecisionStatus::Block => RiskTier::Critical,
            DecisionStatus::RequireHitl => RiskTier::High,
            DecisionStatus::Allow => {
                if firewall.is_suspicious() || self.any_rules(policy) {
                    RiskTier::Medium
                } else {
                    RiskTier::Low
                }
            },
        };

        (decision, risk_tier)
    }

    /// Did any policy rule trigger?
    fn any_rules(&self, policy: &PolicyOutcome) -> (r: bool)
        ensures
            r == (policy.triggered_rules@.len() > 0),
    {
        policy.triggered_rules.len() > 0
    }

    /// Evaluate an agent action through the full pipeline: firewall,
    /// alignment checker, policy engine, then merge. The evaluation
    /// references the action; a Pending review task is created exactly
    /// when the decision requires review, referencing both.
    pub fn evaluate(&self, action: &AgentAction) -> (r: CoordinatorResult)
        ensures
            r.evaluation.agent_action_id == action.id,
            r.evaluation.decision == self.spec_decision(*action),
            r.evaluation.risk_tier == self.spec_risk(*action),
            r.evaluation.rule_hits.deep_view() == self.spec_rule_hits(*action),
            r.evaluation.reasons.deep_view() == self.spec_reasons(*action),
            r.evaluation.neural_signals.deep_view() == self.spec_signals(*action),
            r.evaluation.decision != DecisionStatus::Allow ==> r.evaluation.reasons@.len() > 0
                && r.evaluation.rule_hits@.len() > 0,
            (r.hitl_task is Some) <==> r.evaluation.decision == DecisionStatus::RequireHitl,
            r.hitl_task matches Some(t) ==> t.agent_action_id == action.id && t.evaluation_id
                == r.evaluation.id && t.status == crate::hitl::HitlStatus::Pending && t.wf(),
    {
        let ghost a = *action;
        let firewall_outcome = self.firewall.evaluate(action);

        match firewall_outcome {
            FirewallOutcome::Blocked { reasons } => {
                let mut rule_hits: Vec<String> = Vec::new();
                rule_hits.push(String::from_str("FIREWALL_BLOCK"));
                let mut neural_signals: Vec<String> = Vec::new();
                neural_signals.push(String::from_str("firewall_triggered"));
                proof {
                    assert(rule_hits.deep_view() =~~= self.spec_rule_hits(a));
                    assert(neural_signals.deep_view() =~~= self.spec_signals(a));
                    assert(reasons.deep_view() =~~= self.spec_reasons(a));
                    crate::firewall::lemma_first_blocking(self.firewall.firewalls@, scan_text(a));
                    crate::firewall::lemma_matched_keywords_nonempty(
                        scan_text(a),
                        match self.firewall.firewalls@[first_blocking(
                            self.firewall.firewalls@,
                            scan_text(a),
                        )->Some_0] {
                            crate::firewall::FirewallVariant::Keyword(f) => f.block_keywords.deep_view(),
                            crate::firewall::FirewallVariant::Neural(_) => Seq::empty(),
                        },
                    );
                }
                let evaluation = EvaluationResult {
                    id: fresh_id(),
                    agent_action_id: action.id,
                    decision: DecisionStatus::Block,
                    risk_tier: RiskTier::Critical,
                    reasons,
                    rule_hits,
                    neural_signals,
                    created_at: now_millis(),
                };
                return CoordinatorResult { evaluation, hitl_task: None };
            },
            _ => {},
        }

        let mut reasons: Vec<String> = Vec::new();
        let mut rule_hits: Vec<String> = Vec::new();
        let neural_signals: Vec<String> = Vec::new();

        match &firewall_outcome {
            FirewallOutcome::Suspicious { reasons: fw_reasons } => {
                let mut fw = clone_strings(fw_reasons);
                reasons.append(&mut fw);
                rule_hits.push(String::from_str("FIREWALL_SUSPICIOUS"));
            },
            _ => {},
        }
        proof {
            assert(reasons.deep_view() =~~= self.firewall.suspicious_reasons(scan_text(a)));
        }

        let alignment_outcome = self.alignment_checker.check_alignment(action);

        match &alignment_outcome {
            AlignmentOutcome::Misaligned { reasons: al_reasons } => {
                let mut al = clone_strings(al_reasons);
                reasons.append(&mut al);
                rule_hits.push(String::from_str("ALIGNMENT_MISALIGNED"));
            },
            _ => {},
        }
        proof {
            assert(reasons.deep_view() =~~= self.firewall.suspicious_reasons(scan_text(a)) + (
            if self.misaligned(a) {
                self.alignment_checker.misaligned_reasons(a)
            } else {
                Seq::<Seq<char>>::empty()
            }));
        }

        let policy_outcome = self.policy_engine.evaluate_policies(action);

        let mut descs = policy_outcome.descriptions();
        reasons.append(&mut descs);
        let mut ids = policy_outcome.rule_ids();
        rule_hits.append(&mut ids);
        proof {
            let rv = crate::policy::rule_views(policy_outcome.triggered_rules@);
            assert(rv == self.rules(a));
            assert(forall|k: int|
                0 <= k < policy_outcome.triggered_rules@.len() ==> (#[trigger] rv[k]).0
                    == policy_outcome.triggered_rules@[k].rule_id@ && rv[k].1
                    == policy_outcome.triggered_rules@[k].description@);
            assert(self.rules(a).map(|_i: int, r: RuleSpec| r.1)
                =~~= policy_outcome.triggered_rules@.map(
                |_i: int, t: crate::policy::TriggeredRule| t.description@,
            ));
            assert(self.rules(a).map(|_i: int, r: RuleSpec| r.0)
                =~~= policy_outcome.triggered_rules@.map(
                |_i: int, t: crate::policy::TriggeredRule| t.rule_id@,
            ));
            assert(reasons.deep_view() =~~= self.spec_reasons(a));
            assert(rule_hits.deep_view() =~~= self.spec_rule_hits(a));
        }

        let merged = self.merge_outcomes(&firewall_outcome, &alignment_outcome, &policy_outcome);
        let decision = merged.0;
        let risk_tier = merged.1;
        proof {
            assert(decision == self.spec_decision(a));
            assert(risk_tier == self.spec_risk(a));
            if decision != DecisionStatus::Allow {
                if self.misaligned(a) {
                    assert(reasons.deep_view().len() > 0);
                } else if aggregate_decision(self.rules(a)) != DecisionStatus::Allow {
                    assert(self.rules(a).len() > 0);
                } else {
                    assert(self.fw_suspicious(a));
                }
            }
        }

        let evaluation = EvaluationResult {
            id: fresh_id(),
            agent_action_id: action.id,
            decision,
            risk_tier,
            reasons,
            rule_hits,
            neural_signals,
            created_at: now_millis(),
        };

        let hitl_task = if matches!(decision, DecisionStatus::RequireHitl) {
            Some(HitlTask::new(action.id, evaluation.id))
        } else {
            None
        };

        CoordinatorResult { evaluation, hitl_task }
    }
}

} // verus!
