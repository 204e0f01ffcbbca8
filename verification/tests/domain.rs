//! Tests for the domain types: actions, evaluations, review tasks,
//! companies, attacks, metrics and settings.

use shield_core::action::{ActionType, AgentAction, Payload};
use shield_core::attack::{AttackOutcome, AttackType};
use shield_core::company::{App, Company, CompanyRole};
use shield_core::config::SafetyConfig;
use shield_core::error::ShieldError;
use shield_core::evaluation::{DecisionStatus, RiskTier};
use shield_core::hitl::{parse_review_decision, HitlStatus, HitlTask};
use shield_core::metrics::{Granularity, TimeRange};
use shield_core::settings::PolicyThresholds;
use shield_core::user::{OAuthProvider, User, UserRole};
use sha2::Digest;

#[test]
fn test_extract_amount() {
    let action = AgentAction::new(
        "user123",
        "chatbot",
        "gpt-4",
        "transfer $500 to savings",
        ActionType::TransferFunds,
        Payload::transfer("checking", "savings", 500_00, "USD"),
    );

    assert_eq!(action.extract_amount(), Some(500_00));
    assert_eq!(action.extract_currency(), Some("USD"));
}

#[test]
fn test_extract_amount_non_monetary() {
    let action = AgentAction::new(
        "user123",
        "chatbot",
        "gpt-4",
        "check my balance",
        ActionType::GetBalance,
        Payload::balance("checking"),
    );

    assert_eq!(action.extract_amount(), None);
}

#[test]
fn test_action_type_labels() {
    assert_eq!(ActionType::TransferFunds.label(), "transfer_funds");
    assert_eq!(ActionType::GetBalance.label(), "get_balance");
    assert_eq!(ActionType::Unknown.label(), "unknown");
}

#[test]
fn test_default_safety_config() {
    let config = SafetyConfig::default();
    assert_eq!(config.max_auto_amount, 100_00);
    assert_eq!(config.hitl_threshold, 1000_00);
    assert_eq!(config.max_transfers_per_hour, 3);
    assert!(!config.suspicious_keywords.is_empty());
}

#[test]
fn test_risk_tier_ordering() {
    // Just verify they're distinct.
    assert_ne!(RiskTier::Low, RiskTier::High);
    assert_ne!(RiskTier::Medium, RiskTier::Critical);
}

#[test]
fn test_risk_tier_parse() {
    assert_eq!("low".parse::<RiskTier>().unwrap(), RiskTier::Low);
    assert_eq!("CRITICAL".parse::<RiskTier>().unwrap(), RiskTier::Critical);
    assert!("oops".parse::<RiskTier>().is_err());
}

#[test]
fn test_decision_status_labels() {
    assert_eq!(DecisionStatus::Allow.label(), "allow");
    assert_eq!(DecisionStatus::RequireHitl.label(), "require_hitl");
    assert_eq!(DecisionStatus::Block.label(), "block");
}

#[test]
fn hitl_test_hitl_task_lifecycle() {
    let action_id: u128 = 11;
    let eval_id: u128 = 22;

    let mut task = HitlTask::new(action_id, eval_id);
    assert_eq!(task.status, HitlStatus::Pending);
    assert!(task.reviewer_id.is_none());

    task.approve("admin@example.com", Some("Looks good".to_string()));
    assert_eq!(task.status, HitlStatus::Approved);
    assert_eq!(task.reviewer_id, Some("admin@example.com".to_string()));
    assert!(task.reviewed_at.is_some());
}

#[test]
fn test_hitl_status_from_str() {
    assert_eq!("pending".parse::<HitlStatus>().unwrap(), HitlStatus::Pending);
    assert_eq!("APPROVED".parse::<HitlStatus>().unwrap(), HitlStatus::Approved);
    assert!("invalid".parse::<HitlStatus>().is_err());
}

#[test]
fn test_decide_then_decide_again_fails() {
    let mut task = HitlTask::new(1, 2);
    let first = task.decide(HitlStatus::Approved, "alice", None);
    assert!(first.is_ok());
    assert_eq!(task.status, HitlStatus::Approved);

    let second = task.decide(HitlStatus::Rejected, "bob", None);
    match second {
        Err(ShieldError::BadRequest(msg)) => {
            assert_eq!(msg, "Task is already approved");
        }
        other => panic!("expected a client error, got {:?}", other),
    }
    assert_eq!(task.status, HitlStatus::Approved);
    assert_eq!(task.reviewer_id, Some("alice".to_string()));
}

#[test]
fn test_parse_review_decision_forms() {
    assert_eq!(parse_review_decision("approve").unwrap(), HitlStatus::Approved);
    assert_eq!(parse_review_decision("Approved").unwrap(), HitlStatus::Approved);
    assert_eq!(parse_review_decision("REJECT").unwrap(), HitlStatus::Rejected);
    assert_eq!(parse_review_decision("rejected").unwrap(), HitlStatus::Rejected);
    assert!(parse_review_decision("maybe").is_err());
}

#[test]
fn test_slugify() {
    assert_eq!(Company::slugify("My Company"), "my-company");
    assert_eq!(Company::slugify("Test  Company  123"), "test-company-123");
    assert_eq!(Company::slugify("Special!@#Characters"), "special-characters");
}

#[test]
fn test_company_role_display() {
    assert_eq!(CompanyRole::Owner.label(), "owner");
    assert_eq!(CompanyRole::Admin.label(), "admin");
}

#[test]
fn test_app_api_key_generation() {
    let app = App::new(7, "Test App".to_string(), None, 100);
    assert!(app.api_key.as_ref().unwrap().starts_with("sk_shield_"));
    assert_eq!(app.api_key_prefix.len(), 12);
    assert_eq!(app.api_key.as_ref().unwrap().len(), 58);
    assert!(app.api_key.as_ref().unwrap().starts_with(&app.api_key_prefix));
}

#[test]
fn test_user_role_display() {
    assert_eq!(UserRole::Member.label(), "member");
    assert_eq!(UserRole::Admin.label(), "admin");
}

#[test]
fn test_oauth_provider_parse() {
    assert_eq!("google".parse::<OAuthProvider>().unwrap(), OAuthProvider::Google);
    assert_eq!("github".parse::<OAuthProvider>().unwrap(), OAuthProvider::GitHub);
}

#[test]
fn test_password_verification() {
    let password = "test123";
    let mut hasher = sha2::Sha256::new();
    hasher.update(password.as_bytes());
    let hash = hex::encode(hasher.finalize());

    let user = User::new_with_password("test@example.com".to_string(), hash);
    assert!(user.verify_password("test123"));
    assert!(!user.verify_password("wrong"));
}

#[test]
fn test_attack_event_blocked_flag() {
    let event = shield_core::attack::AttackEvent::new(
        1,
        None,
        2,
        AttackType::PromptInjection,
        RiskTier::Critical,
        AttackOutcome::Blocked,
        "user123".to_string(),
        "prompt injection detected".to_string(),
    );
    assert!(event.blocked);
    assert_eq!(event.attack_type.label(), "prompt_injection");
    assert_eq!(event.outcome.label(), "blocked");
}

#[test]
fn test_attack_parsing() {
    assert_eq!("misalignment".parse::<AttackType>().unwrap(), AttackType::Misalignment);
    assert_eq!("escalated".parse::<AttackOutcome>().unwrap(), AttackOutcome::Escalated);
    assert!("weird".parse::<AttackType>().is_err());
}

#[test]
fn test_time_range_hours() {
    assert_eq!(TimeRange::Last24h.hours(), 24);
    assert_eq!(TimeRange::Last7d.hours(), 24 * 7);
    assert_eq!(TimeRange::Last30d.hours(), 24 * 30);
    assert_eq!(TimeRange::Last90d.hours(), 24 * 90);
}

#[test]
fn test_time_range_parse() {
    assert_eq!("24h".parse::<TimeRange>().unwrap(), TimeRange::Last24h);
    assert_eq!("last7d".parse::<TimeRange>().unwrap(), TimeRange::Last7d);
    assert!("eon".parse::<TimeRange>().is_err());
    assert_eq!(TimeRange::default(), TimeRange::Last7d);
}

#[test]
fn test_granularity_parse() {
    assert_eq!("hourly".parse::<Granularity>().unwrap(), Granularity::Hour);
    assert_eq!("day".parse::<Granularity>().unwrap(), Granularity::Day);
    assert_eq!(Granularity::default(), Granularity::Day);
}

#[test]
fn test_policy_thresholds_default() {
    let t = PolicyThresholds::default();
    assert_eq!(t.max_auto_approve_amount, 100_00);
    assert_eq!(t.hitl_threshold_amount, 1000_00);
    assert!(t.block_high_risk_actions);
}

#[test]
fn test_paging_clamps() {
    let q = shield_core::api::ListHitlTasksQuery { status: None, limit: 0, offset: -5 };
    assert_eq!(q.clamped_limit(), 1);
    assert_eq!(q.clamped_offset(), 0);

    let q2 = shield_core::api::ListHitlTasksQuery {
        status: None,
        limit: 100000,
        offset: 3,
    };
    assert_eq!(q2.clamped_limit(), 100);
    assert_eq!(q2.clamped_offset(), 3);
    assert_eq!(shield_core::api::default_limit(), 20);
}

#[test]
fn test_error_codes() {
    let e = ShieldError::NotFound("gone".to_string());
    assert_eq!(e.code(), "NOT_FOUND");
    assert_eq!(e.detail(), "gone");
    let b = ShieldError::BadRequest("nope".to_string());
    assert_eq!(b.code(), "BAD_REQUEST");
}
