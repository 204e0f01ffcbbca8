//! Company settings: per-company policy thresholds and notification
//! options. Amounts are integer cents.

use vstd::prelude::*;

verus! {

/// Per-company policy thresholds.
#[derive(Debug, Clone)]
pub struct PolicyThresholds {
    /// Largest amount, in cents, auto-approved without review.
    pub max_auto_approve_amount: i64,
    /// Amount, in cents, above which review is required.
    pub hitl_threshold_amount: i64,
    /// Maximum actions per hour per user.
    pub velocity_limit_per_hour: i32,
    /// Maximum actions per day per user.
    pub velocity_limit_per_day: i32,
    /// Whether to block high-risk actions automatically.
    pub block_high_risk_actions: bool,
    /// Whether new beneficiaries always require review.
    pub require_hitl_for_new_beneficiaries: bool,
}

impl Default for PolicyThresholds {
    /// The stock thresholds: auto-approve to 100.00, review above
    /// 1000.00, modest velocity limits, and conservative flags.
    fn default() -> (r: PolicyThresholds)
        ensures
            r.max_auto_approve_amount == 100_00,
            r.hitl_threshold_amount == 1000_00,
            r.velocity_limit_per_hour == 10,
            r.velocity_limit_per_day == 50,
            r.block_high_risk_actions,
            r.require_hitl_for_new_beneficiaries,
    {
        PolicyThresholds {
            max_auto_approve_amount: 100_00,
            hitl_threshold_amount: 1000_00,
            velocity_limit_per_hour: 10,
            velocity_limit_per_day: 50,
            block_high_risk_actions: true,
            require_hitl_for_new_beneficiaries: true,
        }
    }
}

/// A company's settings.
#[derive(Debug, Clone)]
pub struct CompanySettings {
    /// Company identifier.
    pub id: u128,
    /// Company name.
    pub name: String,
    /// Logo URL.
    pub logo: Option<String>,
    /// Webhook URL for notifications.
    pub webhook_url: Option<String>,
    /// Notification email.
    pub notification_email: Option<String>,
    /// Policy thresholds.
    pub policy_thresholds: PolicyThresholds,
}

impl CompanySettings {
    /// Fresh settings for a company, with the stock thresholds.
    pub fn new(id: u128, name: String) -> (r: CompanySettings)
        ensures
            r.id == id,
            r.name == name,
            r.logo is None,
            r.webhook_url is None,
            r.notification_email is None,
            r.policy_thresholds.max_auto_approve_amount == 100_00,
            r.policy_thresholds.hitl_threshold_amount == 1000_00,
    {
        CompanySettings {
            id,
            name,
            logo: None,
            webhook_url: None,
            notification_email: None,
            policy_thresholds: PolicyThresholds::default(),
        }
    }
}

/// A request to update company settings; absent fields stay unchanged.
#[derive(Debug, Clone)]
pub struct UpdateSettingsRequest {
    /// New logo URL.
    pub logo: Option<String>,
    /// New webhook URL.
    pub webhook_url: Option<String>,
    /// New notification email.
    pub notification_email: Option<String>,
    /// New policy thresholds.
    pub policy_thresholds: Option<PolicyThresholds>,
}

} // verus!
