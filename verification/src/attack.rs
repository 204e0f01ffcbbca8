//! Attack event domain types: detected threats and their outcomes.

use vstd::prelude::*;
use vstd::string::StringExecFns;

use crate::evaluation::RiskTier;
use crate::ids::{fresh_id, now_millis};
use crate::text::{bytes_eq, lower_bytes, lower_vec, utf8_bytes};

verus! {

/// Kinds of attacks the gateway can detect.
#[derive(Clone, Copy, PartialEq, Eq, Structural, Debug)]
pub enum AttackType {
    /// Prompt injection attempt.
    PromptInjection,
    /// Jailbreak attempt.
    JailbreakAttempt,
    /// Data exfiltration attempt.
    DataExfiltration,
    /// Privilege escalation attempt.
    PrivilegeEscalation,
    /// Action misalignment with the user's intent.
    Misalignment,
    /// Social engineering attempt.
    SocialEngineering,
    /// Unknown attack type.
    Unknown,
}

impl AttackType {
    /// The stable snake_case name of this attack type.
    pub open spec fn label_spec(self) -> Seq<char> {
        match self {
            AttackType::PromptInjection => "prompt_injection"@,
            AttackType::JailbreakAttempt => "jailbreak_attempt"@,
            AttackType::DataExfiltration => "data_exfiltration"@,
            AttackType::PrivilegeEscalation => "privilege_escalation"@,
            AttackType::Misalignment => "misalignment"@,
            AttackType::SocialEngineering => "social_engineering"@,
            AttackType::Unknown => "unknown"@,
        }
    }

    /// The stable snake_case name of this attack type.
    pub fn label(&self) -> (r: String)
        ensures
            r@ == self.label_spec(),
    {
        match self {
            AttackType::PromptInjection => String::from_str("prompt_injection"),
            AttackType::JailbreakAttempt => String::from_str("jailbreak_attempt"),
            AttackType::DataExfiltration => String::from_str("data_exfiltration"),
            AttackType::PrivilegeEscalation => String::from_str("privilege_escalation"),
            AttackType::Misalignment => String::from_str("misalignment"),
            AttackType::SocialEngineering => String::from_str("social_engineering"),
            AttackType::Unknown => String::from_str("unknown"),
        }
    }

    /// Parse an attack-type name, case-insensitively.
    pub fn parse(s: &str) -> (r: Result<AttackType, String>)
        ensures
            match r {
                Ok(t) => lower_bytes(utf8_bytes(s@)) == utf8_bytes(t.label_spec()),
                Err(e) => e@ == "Unknown attack type: "@ + s@,
            },
    {
        let low = lower_vec(s.as_bytes());
        if bytes_eq(low.as_slice(), "prompt_injection".as_bytes()) {
            Ok(AttackType::PromptInjection)
        } else if bytes_eq(low.as_slice(), "jailbreak_attempt".as_bytes()) {
            Ok(AttackType::JailbreakAttempt)
        } else if bytes_eq(low.as_slice(), "data_exfiltration".as_bytes()) {
            Ok(AttackType::DataExfiltration)
        } else if bytes_eq(low.as_slice(), "privilege_escalation".as_bytes()) {
            Ok(AttackType::PrivilegeEscalation)
        } else if bytes_eq(low.as_slice(), "misalignment".as_bytes()) {
            Ok(AttackType::Misalignment)
        } else if bytes_eq(low.as_slice(), "social_engineering".as_bytes()) {
            Ok(AttackType::SocialEngineering)
        } else if bytes_eq(low.as_slice(), "unknown".as_bytes()) {
            Ok(AttackType::Unknown)
        } else {
            let mut msg = String::from_str("Unknown attack type: ");
            msg.append(s);
            Err(msg)
        }
    }
}

impl core::str::FromStr for AttackType {
    type Err = String;

    fn from_str(s: &str) -> Result<AttackType, String> {
        AttackType::parse(s)
    }
}

/// Outcome of an attack attempt.
#[derive(Clone, Copy, PartialEq, Eq, Structural, Debug)]
pub enum AttackOutcome {
    /// The attack was blocked.
    Blocked,
    /// The attack was escalated to human review.
    Escalated,
    /// The attack was allowed through.
    Allowed,
}

impl AttackOutcome {
    /// The stable lower-case name of this outcome.
    pub open spec fn label_spec(self) -> Seq<char> {
        match self {
            AttackOutcome::Blocked => "blocked"@,
            AttackOutcome::Escalated => "escalated"@,
            AttackOutcome::Allowed => "allowed"@,
        }
    }

    /// The stable lower-case name of this outcome.
    pub fn label(&self) -> (r: String)
        ensures
            r@ == self.label_spec(),
    {
        match self {
            AttackOutcome::Blocked => String::from_str("blocked"),
            AttackOutcome::Escalated => String::from_str("escalated"),
            AttackOutcome::Allowed => String::from_str("allowed"),
        }
    }

    /// Parse an outcome name, case-insensitively.
    pub fn parse(s: &str) -> (r: Result<AttackOutcome, String>)
        ensures
            match r {
                Ok(o) => lower_bytes(utf8_bytes(s@)) == utf8_bytes(o.label_spec()),
                Err(e) => e@ == "Unknown attack outcome: "@ + s@,
            },
    {
        let low = lower_vec(s.as_bytes());
        if bytes_eq(low.as_slice(), "blocked".as_bytes()) {
            Ok(AttackOutcome::Blocked)
        } else if bytes_eq(low.as_slice(), "escalated".as_bytes()) {
            Ok(AttackOutcome::Escalated)
        } else if bytes_eq(low.as_slice(), "allowed".as_bytes()) {
            Ok(AttackOutcome::Allowed)
        } else {
            let mut msg = String::from_str("Unknown attack outcome: ");
            msg.append(s);
            Err(msg)
        }
    }
}

impl core::str::FromStr for AttackOutcome {
    type Err = String;

    fn from_str(s: &str) -> Result<AttackOutcome, String> {
        AttackOutcome::parse(s)
    }
}

/// A detected attack event.
#[derive(Debug, Clone)]
pub struct AttackEvent {
    /// Unique identifier.
    pub id: u128,
    /// The company this attack belongs to.
    pub company_id: u128,
    /// The app that was attacked, if known.
    pub app_id: Option<u128>,
    /// App name, denormalized for convenience.
    pub app_name: Option<String>,
    /// The related agent action.
    pub agent_action_id: u128,
    /// The kind of attack detected.
    pub attack_type: AttackType,
    /// Severity of the attack.
    pub severity: RiskTier,
    /// Whether the attack was blocked.
    pub blocked: bool,
    /// Outcome of the attack.
    pub outcome: AttackOutcome,
    /// The targeted user.
    pub user_id: String,
    /// Brief description.
    pub description: String,
    /// Detailed information, if any.
    pub details: Option<String>,
    /// Detection time, milliseconds since the Unix epoch.
    pub created_at: i64,
}

impl AttackEvent {
    /// Record a detected attack; `blocked` reflects the outcome.
    pub fn new(
        company_id: u128,
        app_id: Option<u128>,
        agent_action_id: u128,
        attack_type: AttackType,
        severity: RiskTier,
        outcome: AttackOutcome,
        user_id: String,
        description: String,
    ) -> (r: AttackEvent)
        ensures
            r.company_id == company_id,
            r.app_id == app_id,
            r.agent_action_id == agent_action_id,
            r.attack_type == attack_type,
            r.severity == severity,
            r.outcome == outcome,
            r.blocked == (outcome == AttackOutcome::Blocked),
            r.user_id == user_id,
            r.description == description,
            r.app_name is None,
            r.details is None,
    {
        AttackEvent {
            id: fresh_id(),
            company_id,
            app_id,
            app_name: None,
            agent_action_id,
            attack_type,
            severity,
            blocked: matches!(outcome, AttackOutcome::Blocked),
            outcome,
            user_id,
            description,
            details: None,
            created_at: now_millis(),
        }
    }

    /// Attach the app name.
    pub fn with_app_name(self, name: String) -> (r: AttackEvent)
        ensures
            r == (AttackEvent { app_name: Some(name), ..self }),
    {
        AttackEvent { app_name: Some(name), ..self }
    }

    /// Attach additional details.
    pub fn with_details(self, details: String) -> (r: AttackEvent)
        ensures
            r == (AttackEvent { details: Some(details), ..self }),
    {
        AttackEvent { details: Some(details), ..self }
    }
}

} // verus!
