//! Shield Core: an AI-safety gateway for LLM-agent-driven financial
//! operations. An upstream agent proposes an action on behalf of a user;
//! the layered evaluation pipeline decides whether the action may execute
//! autonomously, must wait for human approval, or must be refused outright.

pub mod action;
pub mod alignment;
pub mod api;
pub mod attack;
pub mod auth;
pub mod company;
pub mod config;
pub mod coordinator;
pub mod error;
pub mod evaluation;
pub mod firewall;
pub mod guard;
pub mod hashing;
pub mod hitl;
pub mod ids;
pub mod laws;
pub mod metrics;
pub mod policy;
pub mod settings;
pub mod text;
pub mod user;

