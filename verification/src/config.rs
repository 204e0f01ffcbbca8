//! Configuration types.
//!
//! Monetary thresholds are in integer cents: `100_00` is one hundred
//! units of the action's currency. Loading from files or the environment
//! happens outside the library; the types and their defaults live here.

use vstd::prelude::*;
use vstd::string::StringExecFns;

use crate::auth::{ConfiguredApiKey, ConfiguredUser};

verus! {

/// Authentication is disabled unless configured.
pub fn default_auth_enabled() -> (r: bool)
    ensures
        !r,
{
    false
}

/// The placeholder signing secret; production deployments must override
/// it.
pub fn default_jwt_secret() -> (r: String)
    ensures
        r@ == "CHANGE_ME_IN_PRODUCTION_shield_jwt_secret_key_2024"@,
{
    String::from_str("CHANGE_ME_IN_PRODUCTION_shield_jwt_secret_key_2024")
}

/// The default token issuer claim.
pub fn default_jwt_issuer() -> (r: String)
    ensures
        r@ == "shield-core"@,
{
    String::from_str("shield-core")
}

/// The default token validity, in hours.
pub fn default_token_duration() -> (r: i64)
    ensures
        r == 24,
{
    24
}

/// Server configuration.
#[derive(Debug, Clone)]
pub struct ServerConfig {
    pub host: String,
    pub port: u16,
}

/// Database configuration.
#[derive(Debug, Clone)]
pub struct DatabaseConfig {
    pub url: String,
}

/// Safety policy configuration.
#[derive(Debug, Clone)]
pub struct SafetyConfig {
    /// Largest amount, in cents, that can be auto-approved without
    /// review.
    pub max_auto_amount: i64,
    /// Amount, in cents, strictly above which review is always required.
    pub hitl_threshold: i64,
    /// Maximum transfers per hour per user, for future rate limiting.
    pub max_transfers_per_hour: u32,
    /// Phrases that raise firewall suspicion.
    pub suspicious_keywords: Vec<String>,
}

impl Default for SafetyConfig {
    /// The default safety policy: auto-approve up to 100.00, review
    /// above 1000.00, and a small suspicion list.
    fn default() -> (r: SafetyConfig)
        ensures
            r.max_auto_amount == 100_00,
            r.hitl_threshold == 1000_00,
            r.max_transfers_per_hour == 3,
            r.suspicious_keywords.deep_view() == seq![
                "ignore previous instructions"@,
                "bypass"@,
                "transfer all funds"@,
            ],
    {
        let mut suspicious_keywords: Vec<String> = Vec::new();
        suspicious_keywords.push(String::from_str("ignore previous instructions"));
        suspicious_keywords.push(String::from_str("bypass"));
        suspicious_keywords.push(String::from_str("transfer all funds"));
        proof {
            assert(suspicious_keywords.deep_view() =~~= seq![
                "ignore previous instructions"@,
                "bypass"@,
                "transfer all funds"@,
            ]);
        }
        SafetyConfig {
            max_auto_amount: 100_00,
            hitl_threshold: 1000_00,
            max_transfers_per_hour: 3,
            suspicious_keywords,
        }
    }
}

/// Authentication configuration.
#[derive(Debug, Clone)]
pub struct AuthConfig {
    /// Whether authentication is enforced.
    pub enabled: bool,
    /// Secret for signing tokens.
    pub jwt_secret: String,
    /// Token issuer claim.
    pub jwt_issuer: String,
    /// Token validity in hours.
    pub token_duration_hours: i64,
    /// Configured agent API keys.
    pub api_keys: Vec<ConfiguredApiKey>,
    /// Configured console users.
    pub users: Vec<ConfiguredUser>,
}

impl Default for AuthConfig {
    /// Authentication off, placeholder secret, one-day tokens, and no
    /// configured keys or users.
    fn default() -> (r: AuthConfig)
        ensures
            !r.enabled,
            r.jwt_secret@ == "CHANGE_ME_IN_PRODUCTION_shield_jwt_secret_key_2024"@,
            r.jwt_issuer@ == "shield-core"@,
            r.token_duration_hours == 24,
            r.api_keys@.len() == 0,
            r.users@.len() == 0,
    {
        AuthConfig {
            enabled: default_auth_enabled(),
            jwt_secret: default_jwt_secret(),
            jwt_issuer: default_jwt_issuer(),
            token_duration_hours: default_token_duration(),
            api_keys: Vec::new(),
            users: Vec::new(),
        }
    }
}

} // verus!
