//! Request and response types of the service boundary, and the small
//! pieces of request validation that belong to the core: paging clamps
//! and defaults.

use vstd::prelude::*;
use vstd::string::StringExecFns;

use crate::action::AgentAction;
use crate::company::CompanyRole;
use crate::evaluation::EvaluationResult;
use crate::hitl::{HitlStatus, HitlTaskDetails, HitlTaskSummary};

verus! {

/// Request to evaluate an agent action.
#[derive(Debug)]
pub struct EvaluateActionRequest {
    /// The action to evaluate.
    pub action: AgentAction,
}

/// Response from action evaluation.
#[derive(Debug)]
pub struct EvaluateActionResponse {
    /// The evaluation record.
    pub evaluation: EvaluationResult,
    /// The identifier of the review task, when one was created.
    pub hitl_task_id: Option<u128>,
}

/// The default page size for task listings.
pub fn default_limit() -> (r: i64)
    ensures
        r == 20,
{
    20
}

/// Query parameters for listing review tasks.
#[derive(Debug, Clone)]
pub struct ListHitlTasksQuery {
    /// Filter by status name.
    pub status: Option<String>,
    /// Maximum number of results.
    pub limit: i64,
    /// Offset for pagination.
    pub offset: i64,
}

impl ListHitlTasksQuery {
    /// The limit actually applied: clamped into 1..=100.
    pub fn clamped_limit(&self) -> (r: i64)
        ensures
            r == if self.limit < 1 {
                1int
            } else if self.limit > 100 {
                100int
            } else {
                self.limit as int
            },
            1 <= r <= 100,
    {
        if self.limit < 1 {
            1
        } else if self.limit > 100 {
            100
        } else {
            self.limit
        }
    }

    /// The offset actually applied: never negative.
    pub fn clamped_offset(&self) -> (r: i64)
        ensures
            r == if self.offset < 0 {
                0int
            } else {
                self.offset as int
            },
            r >= 0,
    {
        if self.offset < 0 {
            0
        } else {
            self.offset
        }
    }
}

/// Response for listing review tasks.
#[derive(Debug)]
pub struct ListHitlTasksResponse {
    /// The task summaries.
    pub tasks: Vec<HitlTaskSummary>,
    /// Total count returned.
    pub total: usize,
    /// Limit used.
    pub limit: i64,
    /// Offset used.
    pub offset: i64,
}

/// Response for one review task with its working set.
#[derive(Debug)]
pub struct GetHitlTaskResponse {
    /// The task, its action and its evaluation.
    pub details: HitlTaskDetails,
}

/// Request to decide a review task.
#[derive(Debug, Clone)]
pub struct HitlDecisionRequest {
    /// The decision: approve(d) or reject(ed), in any case.
    pub decision: String,
    /// Identifier of the approver.
    pub reviewer_id: String,
    /// Optional notes.
    pub notes: Option<String>,
}

/// Response after a review decision.
#[derive(Debug)]
pub struct HitlDecisionResponse {
    /// The decided task.
    pub task_id: u128,
    /// Its new status.
    pub status: HitlStatus,
    /// A confirmation message.
    pub message: String,
}

/// Health check response.
#[derive(Debug, Clone)]
pub struct HealthResponse {
    /// Service status.
    pub status: String,
    /// Service version.
    pub version: String,
    /// Database connectivity.
    pub database: String,
    /// Timestamp.
    pub timestamp: String,
}

/// Login request.
#[derive(Debug, Clone)]
pub struct LoginRequest {
    /// User email.
    pub email: String,
    /// User password.
    pub password: String,
}

/// Minimal user information for responses.
#[derive(Debug, Clone)]
pub struct UserInfo {
    /// User identifier.
    pub id: String,
    /// User email.
    pub email: String,
    /// User role name.
    pub role: String,
}

/// OAuth account synchronization request.
#[derive(Debug, Clone)]
pub struct OAuthSyncRequest {
    /// The OAuth provider name.
    pub provider: String,
    /// The provider's user identifier.
    pub provider_id: String,
    /// The user's email address.
    pub email: String,
    /// The user's display name.
    pub name: Option<String>,
    /// Avatar image URL.
    pub image: Option<String>,
    /// Whether the provider verified the email.
    pub email_verified: bool,
}

/// Response carrying a refreshed token.
#[derive(Debug, Clone)]
pub struct TokenRefreshResponse {
    /// The new token.
    pub token: String,
    /// Its validity in seconds.
    pub expires_in: i64,
}

/// Request to create a company.
#[derive(Debug, Clone)]
pub struct CreateCompanyRequest {
    /// Company name.
    pub name: String,
    /// Optional description.
    pub description: Option<String>,
}

/// Request to update a company; absent fields stay unchanged.
#[derive(Debug, Clone)]
pub struct UpdateCompanyRequest {
    /// New company name.
    pub name: Option<String>,
    /// New description.
    pub description: Option<String>,
}

/// Request to add a member to a company.
#[derive(Debug, Clone)]
pub struct AddMemberRequest {
    /// The user to add.
    pub user_id: String,
    /// The user's email.
    pub email: String,
    /// The role to assign.
    pub role: CompanyRole,
}

/// Request to change a member's role.
#[derive(Debug, Clone)]
pub struct UpdateMemberRoleRequest {
    /// The new role.
    pub role: CompanyRole,
}

/// The default per-app rate limit, requests per minute.
pub fn default_rate_limit() -> (r: u32)
    ensures
        r == 100,
{
    100
}

/// Request to create an app.
#[derive(Debug, Clone)]
pub struct CreateAppRequest {
    /// App name.
    pub name: String,
    /// Optional description.
    pub description: Option<String>,
    /// Rate limit, requests per minute.
    pub rate_limit: u32,
}

/// Request to update an app; absent fields stay unchanged.
#[derive(Debug, Clone)]
pub struct UpdateAppRequest {
    /// New app name.
    pub name: Option<String>,
    /// New description.
    pub description: Option<String>,
    /// New status.
    pub status: Option<crate::company::AppStatus>,
    /// New rate limit.
    pub rate_limit: Option<u32>,
}

/// The default metrics time range.
pub fn default_time_range() -> (r: String)
    ensures
        r@ == "7d"@,
{
    String::from_str("7d")
}

/// Query parameters for metrics.
#[derive(Debug, Clone)]
pub struct MetricsQuery {
    /// Time range name: 24h, 7d, 30d, or 90d.
    pub time_range: String,
    /// Optional app filter.
    pub app_id: Option<u128>,
}

/// Error response body for clients.
#[derive(Debug, Clone)]
pub struct ErrorResponse {
    /// Human-readable error text.
    pub error: String,
    /// Stable machine-readable code.
    pub code: String,
    /// Optional details.
    pub details: Option<String>,
}

} // verus!
