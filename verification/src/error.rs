//! Error type for library operations.
//!
//! Carries a closed set of error kinds; the surrounding service maps each
//! kind to a client- or server-visible response.

use vstd::prelude::*;
use vstd::string::StringExecFns;

verus! {

/// Unified error type for Shield operations.
#[derive(Debug, Clone)]
pub enum ShieldError {
    /// A referenced resource does not exist.
    NotFound(String),
    /// The request itself is invalid.
    BadRequest(String),
    /// The caller is not authenticated.
    Unauthorized(String),
    /// The caller is authenticated but not allowed.
    Forbidden(String),
    /// The persistence layer failed.
    Database(String),
    /// The configuration is invalid.
    Config(String),
    /// A value could not be encoded or decoded.
    Serialization(String),
    /// Any other internal failure.
    Internal(String),
}

impl ShieldError {
    /// The stable machine-readable code for this error kind.
    pub open spec fn code_spec(self) -> Seq<char> {
        match self {
            ShieldError::NotFound(_) => "NOT_FOUND"@,
            ShieldError::BadRequest(_) => "BAD_REQUEST"@,
            ShieldError::Unauthorized(_) => "UNAUTHORIZED"@,
            ShieldError::Forbidden(_) => "FORBIDDEN"@,
            ShieldError::Database(_) => "DATABASE_ERROR"@,
            ShieldError::Config(_) => "CONFIG_ERROR"@,
            ShieldError::Serialization(_) => "SERIALIZATION_ERROR"@,
            ShieldError::Internal(_) => "INTERNAL_ERROR"@,
        }
    }

    /// The stable machine-readable code for this error kind.
    pub fn code(&self) -> (r: String)
        ensures
            r@ == self.code_spec(),
    {
        match self {
            ShieldError::NotFound(_) => String::from_str("NOT_FOUND"),
            ShieldError::BadRequest(_) => String::from_str("BAD_REQUEST"),
            ShieldError::Unauthorized(_) => String::from_str("UNAUTHORIZED"),
            ShieldError::Forbidden(_) => String::from_str("FORBIDDEN"),
            ShieldError::Database(_) => String::from_str("DATABASE_ERROR"),
            ShieldError::Config(_) => String::from_str("CONFIG_ERROR"),
            ShieldError::Serialization(_) => String::from_str("SERIALIZATION_ERROR"),
            ShieldError::Internal(_) => String::from_str("INTERNAL_ERROR"),
        }
    }

    /// The detail text this error carries.
    pub open spec fn detail_spec(self) -> Seq<char> {
        match self {
            ShieldError::NotFound(m) => m@,
            ShieldError::BadRequest(m) => m@,
            ShieldError::Unauthorized(m) => m@,
            ShieldError::Forbidden(m) => m@,
            ShieldError::Database(m) => m@,
            ShieldError::Config(m) => m@,
            ShieldError::Serialization(m) => m@,
            ShieldError::Internal(m) => m@,
        }
    }

    /// The detail text this error carries.
    pub fn detail(&self) -> (r: &String)
        ensures
            r@ == self.detail_spec(),
    {
        match self {
            ShieldError::NotFound(m) => m,
            ShieldError::BadRequest(m) => m,
            ShieldError::Unauthorized(m) => m,
            ShieldError::Forbidden(m) => m,
            ShieldError::Database(m) => m,
            ShieldError::Config(m) => m,
            ShieldError::Serialization(m) => m,
            ShieldError::Internal(m) => m,
        }
    }
}

/// Result type alias for Shield operations.
pub type ShieldResult<T> = Result<T, ShieldError>;

} // verus!
