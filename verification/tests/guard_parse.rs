//! Tests for the content-safety guard: verdict parsing, category codes,
//! and the mapping to firewall outcomes.

use shield_core::guard::{outcome_from_guard, GuardResult, OpenRouterConfig, SafetyCategory};

#[test]
fn test_parse_safe_response() {
    let result = GuardResult::parse("safe");
    assert!(result.is_safe);
    assert!(result.violated_categories.is_empty());
}

#[test]
fn test_parse_unsafe_response() {
    let result = GuardResult::parse("unsafe\nS1, S2");
    assert!(!result.is_safe);
    assert_eq!(result.violated_categories.len(), 2);
    assert!(matches!(result.violated_categories[0], SafetyCategory::ViolentCrimes));
    assert!(matches!(result.violated_categories[1], SafetyCategory::NonViolentCrimes));
}

#[test]
fn test_parse_unsafe_inline() {
    let result = GuardResult::parse("unsafe S6");
    assert!(!result.is_safe);
    assert_eq!(result.violated_categories.len(), 1);
    assert!(matches!(result.violated_categories[0], SafetyCategory::SpecializedAdvice));
}

#[test]
fn test_category_description() {
    assert_eq!(
        SafetyCategory::NonViolentCrimes.description(),
        "Non-violent crimes (fraud, theft)"
    );
}

#[test]
fn test_from_code_case_insensitive() {
    assert!(matches!(SafetyCategory::from_code(" s14 "), SafetyCategory::CodeInterpreterAbuse));
    assert!(matches!(SafetyCategory::from_code("S10"), SafetyCategory::Hate));
    match SafetyCategory::from_code("x99") {
        SafetyCategory::Unknown(code) => assert_eq!(code, "X99"),
        other => panic!("expected an unknown category, got {:?}", other),
    }
}

#[test]
fn test_guard_outcome_critical_blocks() {
    let result = GuardResult::parse("unsafe\nS4");
    let outcome = outcome_from_guard(&result);
    assert!(outcome.is_blocked());
    assert!(outcome.reasons()[0].contains("Child sexual exploitation"));
}

#[test]
fn test_guard_outcome_noncritical_suspicious() {
    let result = GuardResult::parse("unsafe\nS6");
    let outcome = outcome_from_guard(&result);
    assert!(outcome.is_suspicious());
    assert!(outcome.reasons()[0].contains("Specialized advice"));
}

#[test]
fn test_guard_outcome_safe_clean() {
    let result = GuardResult::parse("safe");
    let outcome = outcome_from_guard(&result);
    assert!(!outcome.is_blocked());
    assert!(!outcome.is_suspicious());
}

#[test]
fn test_guard_config_default() {
    let config = OpenRouterConfig::default();
    assert!(!config.enabled);
    assert_eq!(config.timeout_secs, 10);
    assert_eq!(config.model, "meta-llama/llama-guard-4-12b");
    assert!(config.api_key.is_empty());
}
