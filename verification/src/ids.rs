//! Fresh identifiers and timestamps.
//!
//! Every persisted record carries a 128-bit random identifier and a
//! creation time in milliseconds since the Unix epoch. Both come from
//! outside the verified code: nothing is assumed about their values.

use vstd::prelude::*;

verus! {

/// Relies on uuid::Uuid::new_v4: a fresh random identifier.
/// The result is random; no contract constrains it.
#[verifier::external_body]
pub fn fresh_id() -> u128 {
    uuid::Uuid::new_v4().as_u128()
}

/// Relies on uuid::Uuid::new_v4 and its hyphenated rendering: a fresh
/// random trace identifier. The result is random; no contract constrains it.
#[verifier::external_body]
pub fn fresh_trace_id() -> String {
    uuid::Uuid::new_v4().to_string()
}

/// Relies on chrono::Utc::now: the current time in milliseconds since the
/// Unix epoch. The result depends on the clock; no contract constrains it.
#[verifier::external_body]
pub fn now_millis() -> i64 {
    chrono::Utc::now().timestamp_millis()
}

} // verus!
