//! Alignment checker: does the proposed action match the user's intent?
//!
//! Misalignment can indicate hallucination, prompt injection that changed
//! the action, or model confusion. The heuristic checker infers the
//! intended action type from keywords in the user's request and flags
//! mismatches; Unknown is not an error, only a lack of signal.

use vstd::prelude::*;
use vstd::string::StringExecFns;

use crate::action::{ActionType, AgentAction};
use crate::text::{clone_strings, contains_ci, contains_ci_bytes, strings_eq, utf8_bytes};

verus! {

/// Outcome of alignment checking.
#[derive(Debug, Clone)]
pub enum AlignmentOutcome {
    /// The action aligns with the stated intent.
    Aligned,
    /// The action does not match the stated intent.
    Misaligned { reasons: Vec<String> },
    /// Alignment cannot be determined.
    Unknown,
}

impl PartialEq for AlignmentOutcome {
    fn eq(&self, other: &AlignmentOutcome) -> (r: bool) {
        match (self, other) {
            (AlignmentOutcome::Aligned, AlignmentOutcome::Aligned) => true,
            (AlignmentOutcome::Unknown, AlignmentOutcome::Unknown) => true,
            (
                AlignmentOutcome::Misaligned { reasons: a },
                AlignmentOutcome::Misaligned { reasons: b },
            ) => strings_eq(a, b),
            _ => false,
        }
    }
}

impl vstd::std_specs::cmp::PartialEqSpecImpl for AlignmentOutcome {
    open spec fn obeys_eq_spec() -> bool {
        true
    }

    open spec fn eq_spec(&self, other: &AlignmentOutcome) -> bool {
        match (self, other) {
            (AlignmentOutcome::Aligned, AlignmentOutcome::Aligned) => true,
            (AlignmentOutcome::Unknown, AlignmentOutcome::Unknown) => true,
            (
                AlignmentOutcome::Misaligned { reasons: a },
                AlignmentOutcome::Misaligned { reasons: b },
            ) => a.deep_view() == b.deep_view(),
            _ => false,
        }
    }
}

impl AlignmentOutcome {
    /// Is this outcome Misaligned?
    pub fn is_misaligned(&self) -> (r: bool)
        ensures
            r == (self is Misaligned),
    {
        matches!(self, AlignmentOutcome::Misaligned { .. })
    }

    /// The reasons this outcome carries; empty unless Misaligned.
    pub open spec fn reasons_spec(self) -> Seq<Seq<char>> {
        match self {
            AlignmentOutcome::Misaligned { reasons } => reasons.deep_view(),
            _ => Seq::empty(),
        }
    }

    /// The reasons this outcome carries; empty unless Misaligned.
    pub fn reasons(&self) -> (r: Vec<String>)
        ensures
            r.deep_view() == self.reasons_spec(),
    {
        match self {
            AlignmentOutcome::Misaligned { reasons } => clone_strings(reasons),
            _ => Vec::new(),
        }
    }
}

/// The intent text mentions checking a balance.
pub open spec fn balance_intent(t: Seq<u8>) -> bool {
    ||| contains_ci(t, utf8_bytes("balance"@))
    ||| contains_ci(t, utf8_bytes("how much"@))
    ||| contains_ci(t, utf8_bytes("check account"@))
    ||| contains_ci(t, utf8_bytes("account status"@))
}

/// The intent text mentions transferring funds.
pub open spec fn transfer_intent(t: Seq<u8>) -> bool {
    ||| contains_ci(t, utf8_bytes("transfer"@))
    ||| contains_ci(t, utf8_bytes("send money"@))
    ||| contains_ci(t, utf8_bytes("move funds"@))
    ||| contains_ci(t, utf8_bytes("wire"@))
}

/// The intent text mentions paying a bill.
pub open spec fn bill_intent(t: Seq<u8>) -> bool {
    ||| contains_ci(t, utf8_bytes("pay bill"@))
    ||| contains_ci(t, utf8_bytes("pay my"@))
    ||| contains_ci(t, utf8_bytes("payment to"@))
}

/// The intent text mentions transaction history.
pub open spec fn transactions_intent(t: Seq<u8>) -> bool {
    ||| contains_ci(t, utf8_bytes("transaction"@))
    ||| contains_ci(t, utf8_bytes("history"@))
    ||| contains_ci(t, utf8_bytes("recent activity"@))
    ||| contains_ci(t, utf8_bytes("statement"@))
}

/// The action type the user likely intended, inferred from the intent
/// text; the keyword groups are tried in a fixed order.
pub open spec fn infer_intent(t: Seq<u8>) -> Option<ActionType> {
    if balance_intent(t) {
        Some(ActionType::GetBalance)
    } else if transfer_intent(t) {
        Some(ActionType::TransferFunds)
    } else if bill_intent(t) {
        Some(ActionType::PayBill)
    } else if transactions_intent(t) {
        Some(ActionType::GetTransactions)
    } else {
        None
    }
}

/// Read-only action types.
pub open spec fn is_read_type(t: ActionType) -> bool {
    t == ActionType::GetBalance || t == ActionType::GetTransactions
}

/// Write action types.
pub open spec fn is_write_type(t: ActionType) -> bool {
    t == ActionType::TransferFunds || t == ActionType::PayBill || t == ActionType::CloseAccount
}

/// Critical action types, which demand an explicitly matching intent.
pub open spec fn is_critical_type(t: ActionType) -> bool {
    t == ActionType::CloseAccount || t == ActionType::AddBeneficiary || t
        == ActionType::RequestLoan
}

/// A read-only intent turned into a write action: the canonical
/// prompt-injection hijack pattern.
pub open spec fn read_write_mismatch(inferred: ActionType, actual: ActionType) -> bool {
    is_read_type(inferred) && is_write_type(actual)
}

/// A critical action whose inferred intent differs.
pub open spec fn critical_mismatch(inferred: ActionType, actual: ActionType) -> bool {
    is_critical_type(actual) && inferred != actual
}

/// Any mismatch the heuristic checker flags, given an inferred intent.
pub open spec fn intent_mismatch(strict: bool, inferred: ActionType, actual: ActionType) -> bool {
    ||| read_write_mismatch(inferred, actual)
    ||| critical_mismatch(inferred, actual)
    ||| (strict && inferred != actual)
}

/// The checker reports Misaligned on this action.
pub open spec fn alignment_misaligned(strict: bool, a: AgentAction) -> bool {
    match infer_intent(utf8_bytes(a.original_intent@)) {
        Some(inferred) => intent_mismatch(strict, inferred, a.action_type),
        None => strict && (a.action_type == ActionType::TransferFunds || a.action_type
            == ActionType::PayBill),
    }
}

/// The checker reports Aligned on this action.
pub open spec fn alignment_aligned(strict: bool, a: AgentAction) -> bool {
    match infer_intent(utf8_bytes(a.original_intent@)) {
        Some(inferred) => !intent_mismatch(strict, inferred, a.action_type),
        None => false,
    }
}

/// The single reason reported when the checker flags this action.
pub open spec fn misalignment_reason(strict: bool, a: AgentAction) -> Seq<char> {
    match infer_intent(utf8_bytes(a.original_intent@)) {
        Some(inferred) => mismatch_reason(strict, inferred, a.action_type, a.original_intent@),
        None => "Cannot verify intent for high-risk action '"@ + a.action_type.label_spec()
            + "'"@,
    }
}

/// The reason text for a mismatch between an inferred and an actual type.
pub open spec fn mismatch_reason(
    strict: bool,
    inferred: ActionType,
    actual: ActionType,
    intent: Seq<char>,
) -> Seq<char> {
    if read_write_mismatch(inferred, actual) {
        "User intent '"@ + intent + "' suggests read-only operation, but action is '"@
            + actual.label_spec() + "'"@
    } else if critical_mismatch(inferred, actual) {
        "Critical action '"@ + actual.label_spec() + "' does not match user intent '"@ + intent
            + "'"@
    } else {
        "Inferred intent type '"@ + inferred.label_spec() + "' does not match action type '"@
            + actual.label_spec() + "'"@
    }
}

/// Heuristic alignment checker: keyword matching plus action-type
/// inference.
#[derive(Debug, Clone)]
pub struct HeuristicAlignmentChecker {
    /// Whether any mismatch at all is flagged.
    pub strict_mode: bool,
}

impl HeuristicAlignmentChecker {
    /// Create a heuristic checker.
    pub fn new(strict_mode: bool) -> (r: HeuristicAlignmentChecker)
        ensures
            r.strict_mode == strict_mode,
    {
        HeuristicAlignmentChecker { strict_mode }
    }

    /// Infer what action type the user likely intended from their
    /// message.
    pub fn infer_intent_type(&self, intent: &str) -> (r: Option<ActionType>)
        ensures
            r == infer_intent(utf8_bytes(intent@)),
    {
        let t = intent.as_bytes();

        if contains_ci_bytes(t, "balance".as_bytes()) || contains_ci_bytes(
            t,
            "how much".as_bytes(),
        ) || contains_ci_bytes(t, "check account".as_bytes()) || contains_ci_bytes(
            t,
            "account status".as_bytes(),
        ) {
            return Some(ActionType::GetBalance);
        }

        if contains_ci_bytes(t, "transfer".as_bytes()) || contains_ci_bytes(
            t,
            "send money".as_bytes(),
        ) || contains_ci_bytes(t, "move funds".as_bytes()) || contains_ci_bytes(
            t,
            "wire".as_bytes(),
        ) {
            return Some(ActionType::TransferFunds);
        }

        if contains_ci_bytes(t, "pay bill".as_bytes()) || contains_ci_bytes(
            t,
            "pay my".as_bytes(),
        ) || contains_ci_bytes(t, "payment to".as_bytes()) {
            return Some(ActionType::PayBill);
        }

        if contains_ci_bytes(t, "transaction".as_bytes()) || contains_ci_bytes(
            t,
            "history".as_bytes(),
        ) || contains_ci_bytes(t, "recent activity".as_bytes()) || contains_ci_bytes(
            t,
            "statement".as_bytes(),
        ) {
            return Some(ActionType::GetTransactions);
        }

        None
    }

    /// Check for obvious misalignment between the inferred intent and the
    /// actual action, returning the reason when one is found.
    pub fn check_action_intent_mismatch(
        &self,
        inferred: &ActionType,
        actual: &ActionType,
        intent: &str,
    ) -> (r: Option<String>)
        ensures
            (r is Some) == intent_mismatch(self.strict_mode, *inferred, *actual),
            r matches Some(m) ==> m@ == mismatch_reason(
                self.strict_mode,
                *inferred,
                *actual,
                intent@,
            ),
    {
        let is_read_intent = matches!(
            inferred,
            ActionType::GetBalance | ActionType::GetTransactions
        );
        let is_write_action = matches!(
            actual,
            ActionType::TransferFunds | ActionType::PayBill | ActionType::CloseAccount
        );

        if is_read_intent && is_write_action {
            let mut m = String::from_str("User intent '");
            m.append(intent);
            m.append("' suggests read-only operation, but action is '");
            let lbl = actual.label();
            m.append(lbl.as_str());
            m.append("'");
            return Some(m);
        }

        let is_critical_action = matches!(
            actual,
            ActionType::CloseAccount | ActionType::AddBeneficiary | ActionType::RequestLoan
        );

        if is_critical_action && !(inferred == actual) {
            let mut m = String::from_str("Critical action '");
            let lbl = actual.label();
            m.append(lbl.as_str());
            m.append("' does not match user intent '");
            m.append(intent);
            m.append("'");
            return Some(m);
        }

        if !(inferred == actual) && self.strict_mode {
            let mut m = String::from_str("Inferred intent type '");
            let il = inferred.label();
            m.append(il.as_str());
            m.append("' does not match action type '");
            let al = actual.label();
            m.append(al.as_str());
            m.append("'");
            return Some(m);
        }

        None
    }

    /// Check whether the action aligns with the user's intent.
    pub fn check_alignment(&self, action: &AgentAction) -> (r: AlignmentOutcome)
        ensures
            (r is Misaligned) == alignment_misaligned(self.strict_mode, *action),
            (r is Aligned) == alignment_aligned(self.strict_mode, *action),
            r matches AlignmentOutcome::Misaligned { reasons } ==> reasons.deep_view() == seq![
                misalignment_reason(self.strict_mode, *action),
            ],
    {
        let inferred_type = match self.infer_intent_type(action.original_intent.as_str()) {
            Some(t) => t,
            None => {
                if !self.strict_mode {
                    return AlignmentOutcome::Unknown;
                }
                if matches!(
                    action.action_type,
                    ActionType::TransferFunds | ActionType::PayBill
                ) {
                    let mut m = String::from_str("Cannot verify intent for high-risk action '");
                    let lbl = action.action_type.label();
                    m.append(lbl.as_str());
                    m.append("'");
                    let mut reasons: Vec<String> = Vec::new();
                    reasons.push(m);
                    proof {
                        assert(reasons.deep_view() =~~= seq![
                            misalignment_reason(self.strict_mode, *action),
                        ]);
                    }
                    return AlignmentOutcome::Misaligned { reasons };
                }
                return AlignmentOutcome::Unknown;
            },
        };

        if let Some(reason) = self.check_action_intent_mismatch(
            &inferred_type,
            &action.action_type,
            action.original_intent.as_str(),
        ) {
            let mut reasons: Vec<String> = Vec::new();
            reasons.push(reason);
            proof {
                assert(reasons.deep_view() =~~= seq![
                    misalignment_reason(self.strict_mode, *action),
                ]);
            }
            return AlignmentOutcome::Misaligned { reasons };
        }

        AlignmentOutcome::Aligned
    }
}

/// Alignment checker that would defer to a hosted LLM judge; until one is
/// wired in, it reports Unknown.
#[derive(Debug, Clone)]
pub struct LlmAlignmentChecker {
    /// Whether the checker is enabled.
    pub enabled: bool,
}

impl LlmAlignmentChecker {
    /// Create an LLM-judge checker.
    pub fn new(enabled: bool) -> (r: LlmAlignmentChecker)
        ensures
            r.enabled == enabled,
    {
        LlmAlignmentChecker { enabled }
    }

    /// Check alignment; this placeholder cannot verify anything and
    /// reports Unknown.
    pub fn check_alignment(&self, _action: &AgentAction) -> (r: AlignmentOutcome)
        ensures
            r is Unknown,
    {
        AlignmentOutcome::Unknown
    }
}

/// One alignment checker of either kind.
#[derive(Debug, Clone)]
pub enum AlignmentVariant {
    /// The heuristic checker.
    Heuristic(HeuristicAlignmentChecker),
    /// The LLM-judge checker.
    Llm(LlmAlignmentChecker),
}

impl AlignmentVariant {
    /// Does this checker report Misaligned on the action?
    pub open spec fn misaligned(self, a: AgentAction) -> bool {
        match self {
            AlignmentVariant::Heuristic(h) => alignment_misaligned(h.strict_mode, a),
            AlignmentVariant::Llm(_) => false,
        }
    }

    /// The reasons this checker reports when it flags the action.
    pub open spec fn misaligned_reasons(self, a: AgentAction) -> Seq<Seq<char>> {
        match self {
            AlignmentVariant::Heuristic(h) => seq![misalignment_reason(h.strict_mode, a)],
            AlignmentVariant::Llm(_) => Seq::empty(),
        }
    }

    /// Check whether the action aligns with the user's intent.
    pub fn check_alignment(&self, action: &AgentAction) -> (r: AlignmentOutcome)
        ensures
            (r is Misaligned) == self.misaligned(*action),
            r matches AlignmentOutcome::Misaligned { reasons } ==> reasons.deep_view()
                == self.misaligned_reasons(*action),
    {
        match self {
            AlignmentVariant::Heuristic(h) => h.check_alignment(action),
            AlignmentVariant::Llm(l) => l.check_alignment(action),
        }
    }
}

} // verus!
