//! Human-in-the-loop (HITL) task lifecycle.
//!
//! A task is created Pending when an evaluation requires review, and
//! moves to Approved or Rejected exactly once; terminal states are never
//! overwritten.

use vstd::prelude::*;
use vstd::string::StringExecFns;

use crate::action::AgentAction;
use crate::error::ShieldError;
use crate::evaluation::EvaluationResult;
use crate::ids::{fresh_id, now_millis};
use crate::text::{bytes_eq, lower_bytes, lower_vec, utf8_bytes};

verus! {

/// Status of a HITL task.
#[derive(Clone, Copy, PartialEq, Eq, Structural, Debug)]
pub enum HitlStatus {
    /// Awaiting human review.
    Pending,
    /// Approved by a human approver.
    Approved,
    /// Rejected by a human approver.
    Rejected,
}

impl HitlStatus {
    /// The stable lower-case name of this status.
    pub open spec fn label_spec(self) -> Seq<char> {
        match self {
            HitlStatus::Pending => "pending"@,
            HitlStatus::Approved => "approved"@,
            HitlStatus::Rejected => "rejected"@,
        }
    }

    /// The stable lower-case name of this status.
    pub fn label(&self) -> (r: String)
        ensures
            r@ == self.label_spec(),
    {
        match self {
            HitlStatus::Pending => String::from_str("pending"),
            HitlStatus::Approved => String::from_str("approved"),
            HitlStatus::Rejected => String::from_str("rejected"),
        }
    }

    /// Parse a status name, case-insensitively.
    pub fn parse(s: &str) -> (r: Result<HitlStatus, String>)
        ensures
            match r {
                Ok(st) => lower_bytes(utf8_bytes(s@)) == utf8_bytes(st.label_spec()),
                Err(e) => {
                    &&& lower_bytes(utf8_bytes(s@)) != utf8_bytes("pending"@)
                    &&& lower_bytes(utf8_bytes(s@)) != utf8_bytes("approved"@)
                    &&& lower_bytes(utf8_bytes(s@)) != utf8_bytes("rejected"@)
                    &&& e@ == "Invalid HITL status: "@ + s@
                },
            },
    {
        let low = lower_vec(s.as_bytes());
        if bytes_eq(low.as_slice(), "pending".as_bytes()) {
            Ok(HitlStatus::Pending)
        } else if bytes_eq(low.as_slice(), "approved".as_bytes()) {
            Ok(HitlStatus::Approved)
        } else if bytes_eq(low.as_slice(), "rejected".as_bytes()) {
            Ok(HitlStatus::Rejected)
        } else {
            let mut msg = String::from_str("Invalid HITL status: ");
            msg.append(s);
            Err(msg)
        }
    }
}

impl core::str::FromStr for HitlStatus {
    type Err = String;

    fn from_str(s: &str) -> Result<HitlStatus, String> {
        HitlStatus::parse(s)
    }
}

/// Parse an approver's decision, case-insensitively: approve(d) or
/// reject(ed). A parsed decision is never Pending.
pub fn parse_review_decision(s: &str) -> (r: Result<HitlStatus, ShieldError>)
    ensures
        match r {
            Ok(HitlStatus::Approved) => {
                ||| lower_bytes(utf8_bytes(s@)) == utf8_bytes("approve"@)
                ||| lower_bytes(utf8_bytes(s@)) == utf8_bytes("approved"@)
            },
            Ok(HitlStatus::Rejected) => {
                ||| lower_bytes(utf8_bytes(s@)) == utf8_bytes("reject"@)
                ||| lower_bytes(utf8_bytes(s@)) == utf8_bytes("rejected"@)
            },
            Ok(HitlStatus::Pending) => false,
            Err(e) => {
                &&& lower_bytes(utf8_bytes(s@)) != utf8_bytes("approve"@)
                &&& lower_bytes(utf8_bytes(s@)) != utf8_bytes("approved"@)
                &&& lower_bytes(utf8_bytes(s@)) != utf8_bytes("reject"@)
                &&& lower_bytes(utf8_bytes(s@)) != utf8_bytes("rejected"@)
                &&& e is BadRequest
            },
        },
{
    let low = lower_vec(s.as_bytes());
    if bytes_eq(low.as_slice(), "approve".as_bytes()) || bytes_eq(
        low.as_slice(),
        "approved".as_bytes(),
    ) {
        Ok(HitlStatus::Approved)
    } else if bytes_eq(low.as_slice(), "reject".as_bytes()) || bytes_eq(
        low.as_slice(),
        "rejected".as_bytes(),
    ) {
        Ok(HitlStatus::Rejected)
    } else {
        let mut msg = String::from_str("Invalid decision '");
        msg.append(s);
        msg.append("'. Must be 'approve' or 'reject'");
        Err(ShieldError::BadRequest(msg))
    }
}

/// A task requiring human review.
#[derive(Debug, Clone)]
pub struct HitlTask {
    /// Unique identifier for the task.
    pub id: u128,
    /// Identifier of the agent action being reviewed.
    pub agent_action_id: u128,
    /// Identifier of the evaluation that required review.
    pub evaluation_id: u128,
    /// Current status of the task.
    pub status: HitlStatus,
    /// Identifier of the human approver, once reviewed.
    pub reviewer_id: Option<String>,
    /// When the task was reviewed, milliseconds since the Unix epoch.
    pub reviewed_at: Option<i64>,
    /// Notes from the approver.
    pub review_notes: Option<String>,
    /// Creation time, milliseconds since the Unix epoch.
    pub created_at: i64,
}

/// What one `decide` call does: from a Pending task it succeeds and
/// records the terminal decision; from a decided task it fails and leaves
/// the task untouched.
pub open spec fn decide_post(
    pre: HitlTask,
    post: HitlTask,
    decision: HitlStatus,
    reviewer: Seq<char>,
    notes: Option<String>,
    ok: bool,
) -> bool {
    if pre.status == HitlStatus::Pending {
        &&& ok
        &&& post.status == decision
        &&& post.reviewer_id matches Some(r) && r@ == reviewer
        &&& post.reviewed_at is Some
        &&& post.review_notes == notes
        &&& post.id == pre.id
        &&& post.agent_action_id == pre.agent_action_id
        &&& post.evaluation_id == pre.evaluation_id
        &&& post.created_at == pre.created_at
    } else {
        &&& !ok
        &&& post == pre
    }
}

impl HitlTask {
    /// A reviewed task always records who reviewed it and when.
    pub open spec fn wf(self) -> bool {
        self.status != HitlStatus::Pending ==> self.reviewer_id is Some && self.reviewed_at is Some
    }

    /// Create a new pending task for the given action and evaluation.
    pub fn new(agent_action_id: u128, evaluation_id: u128) -> (r: HitlTask)
        ensures
            r.agent_action_id == agent_action_id,
            r.evaluation_id == evaluation_id,
            r.status == HitlStatus::Pending,
            r.reviewer_id is None,
            r.reviewed_at is None,
            r.review_notes is None,
            r.wf(),
    {
        HitlTask {
            id: fresh_id(),
            agent_action_id,
            evaluation_id,
            status: HitlStatus::Pending,
            reviewer_id: None,
            reviewed_at: None,
            review_notes: None,
            created_at: now_millis(),
        }
    }

    /// Record a terminal decision on a pending task. Fails, without
    /// touching the task, when the task is already decided; the error
    /// names the current status.
    pub fn decide(&mut self, decision: HitlStatus, reviewer_id: &str, notes: Option<String>) -> (r:
        Result<(), ShieldError>)
        requires
            decision != HitlStatus::Pending,
            old(self).wf(),
        ensures
            decide_post(*old(self), *final(self), decision, reviewer_id@, notes, r is Ok),
            final(self).wf(),
            r matches Err(e) ==> e matches ShieldError::BadRequest(m) && m@ == "Task is already "@
                + old(self).status.label_spec(),
    {
        if !matches!(self.status, HitlStatus::Pending) {
            let mut msg = String::from_str("Task is already ");
            let lbl = self.status.label();
            msg.append(lbl.as_str());
            return Err(ShieldError::BadRequest(msg));
        }
        self.status = decision;
        self.reviewer_id = Some(String::from_str(reviewer_id));
        self.reviewed_at = Some(now_millis());
        self.review_notes = notes;
        Ok(())
    }

    /// Approve a pending task.
    pub fn approve(&mut self, reviewer_id: &str, notes: Option<String>)
        requires
            old(self).status == HitlStatus::Pending,
            old(self).wf(),
        ensures
            decide_post(*old(self), *final(self), HitlStatus::Approved, reviewer_id@, notes, true),
            final(self).wf(),
    {
        let _outcome = self.decide(HitlStatus::Approved, reviewer_id, notes);
    }

    /// Reject a pending task.
    pub fn reject(&mut self, reviewer_id: &str, notes: Option<String>)
        requires
            old(self).status == HitlStatus::Pending,
            old(self).wf(),
        ensures
            decide_post(*old(self), *final(self), HitlStatus::Rejected, reviewer_id@, notes, true),
            final(self).wf(),
    {
        let _outcome = self.decide(HitlStatus::Rejected, reviewer_id, notes);
    }
}

/// A decided task is frozen: any further decision fails and leaves every
/// field unchanged, so a task reaches a terminal state at most once.
pub proof fn lemma_terminal_is_frozen(
    pre: HitlTask,
    post: HitlTask,
    decision: HitlStatus,
    reviewer: Seq<char>,
    notes: Option<String>,
    ok: bool,
)
    requires
        pre.status != HitlStatus::Pending,
        decide_post(pre, post, decision, reviewer, notes, ok),
    ensures
        !ok,
        post == pre,
{
}

/// Approving then rejecting: the first decision on a pending task
/// succeeds, the second fails, and the task stays Approved.
pub proof fn lemma_approve_then_reject(
    t0: HitlTask,
    t1: HitlTask,
    t2: HitlTask,
    reviewer1: Seq<char>,
    reviewer2: Seq<char>,
    notes1: Option<String>,
    notes2: Option<String>,
    ok1: bool,
    ok2: bool,
)
    requires
        t0.status == HitlStatus::Pending,
        decide_post(t0, t1, HitlStatus::Approved, reviewer1, notes1, ok1),
        decide_post(t1, t2, HitlStatus::Rejected, reviewer2, notes2, ok2),
    ensures
        ok1,
        !ok2,
        t2 == t1,
        t2.status == HitlStatus::Approved,
{
}

/// Full details of a HITL task including the entities it references.
#[derive(Debug, Clone)]
pub struct HitlTaskDetails {
    pub task: HitlTask,
    pub agent_action: AgentAction,
    pub evaluation: EvaluationResult,
}

/// Summary of a HITL task for list views.
#[derive(Debug, Clone)]
pub struct HitlTaskSummary {
    pub id: u128,
    pub user_id: String,
    pub action_type: String,
    /// Amount in cents, when the payload carries one.
    pub amount: Option<i64>,
    pub risk_tier: String,
    pub status: HitlStatus,
    pub created_at: i64,
}

} // verus!
