//! User domain types: console users with password or OAuth sign-in.

use vstd::prelude::*;
use vstd::string::StringExecFns;

use crate::hashing::{hex_of, sha256_of};
use crate::ids::{fresh_id, now_millis};
use crate::text::{bytes_eq, lower_bytes, utf8_bytes};

verus! {

/// User role in the system.
#[derive(Clone, Copy, PartialEq, Eq, Structural, Debug)]
pub enum UserRole {
    /// Regular member.
    Member,
    /// Administrator.
    Admin,
}

impl UserRole {
    /// The stable lower-case name of this role.
    pub open spec fn label_spec(self) -> Seq<char> {
        match self {
            UserRole::Member => "member"@,
            UserRole::Admin => "admin"@,
        }
    }

    /// The stable lower-case name of this role.
    pub fn label(&self) -> (r: String)
        ensures
            r@ == self.label_spec(),
    {
        match self {
            UserRole::Member => String::from_str("member"),
            UserRole::Admin => String::from_str("admin"),
        }
    }

    /// Parse a role name, case-insensitively.
    pub fn parse(s: &str) -> (r: Result<UserRole, String>)
        ensures
            match r {
                Ok(role) => lower_bytes(utf8_bytes(s@)) == utf8_bytes(role.label_spec()),
                Err(e) => {
                    &&& lower_bytes(utf8_bytes(s@)) != utf8_bytes("member"@)
                    &&& lower_bytes(utf8_bytes(s@)) != utf8_bytes("admin"@)
                    &&& e@ == "Unknown role: "@ + s@
                },
            },
    {
        let low = crate::text::lower_vec(s.as_bytes());
        if bytes_eq(low.as_slice(), "member".as_bytes()) {
            Ok(UserRole::Member)
        } else if bytes_eq(low.as_slice(), "admin".as_bytes()) {
            Ok(UserRole::Admin)
        } else {
            let mut msg = String::from_str("Unknown role: ");
            msg.append(s);
            Err(msg)
        }
    }
}

impl core::str::FromStr for UserRole {
    type Err = String;

    fn from_str(s: &str) -> Result<UserRole, String> {
        UserRole::parse(s)
    }
}

impl Default for UserRole {
    /// New users are members.
    fn default() -> (r: UserRole)
        ensures
            r == UserRole::Member,
    {
        UserRole::Member
    }
}

/// A user in the system.
#[derive(Debug, Clone)]
pub struct User {
    /// Unique identifier.
    pub id: u128,
    /// Email address.
    pub email: String,
    /// Display name.
    pub name: Option<String>,
    /// Avatar image URL.
    pub image: Option<String>,
    /// Role in the system.
    pub role: UserRole,
    /// Whether the email is verified.
    pub email_verified: bool,
    /// Lower-case hex SHA-256 of the password; None for OAuth-only users.
    pub password_hash: Option<String>,
    /// Creation time, milliseconds since the Unix epoch.
    pub created_at: i64,
    /// Last update time, milliseconds since the Unix epoch.
    pub updated_at: i64,
}

impl User {
    /// Create a user with a password digest.
    pub fn new_with_password(email: String, password_hash: String) -> (r: User)
        ensures
            r.email == email,
            r.password_hash == Some(password_hash),
            r.role == UserRole::Member,
            !r.email_verified,
            r.name is None,
            r.image is None,
    {
        let now = now_millis();
        User {
            id: fresh_id(),
            email,
            name: None,
            image: None,
            role: UserRole::Member,
            email_verified: false,
            password_hash: Some(password_hash),
            created_at: now,
            updated_at: now,
        }
    }

    /// Create a user from an OAuth provider.
    pub fn new_from_oauth(
        email: String,
        name: Option<String>,
        image: Option<String>,
        email_verified: bool,
    ) -> (r: User)
        ensures
            r.email == email,
            r.name == name,
            r.image == image,
            r.email_verified == email_verified,
            r.role == UserRole::Member,
            r.password_hash is None,
    {
        let now = now_millis();
        User {
            id: fresh_id(),
            email,
            name,
            image,
            role: UserRole::Member,
            email_verified,
            password_hash: None,
            created_at: now,
            updated_at: now,
        }
    }

    /// Does this password hash to the stored digest? Always false for
    /// OAuth-only users.
    pub fn verify_password(&self, password: &str) -> (r: bool)
        ensures
            r == (self.password_hash matches Some(h) && hex_of(sha256_of(utf8_bytes(password@)))
                == h@),
    {
        match &self.password_hash {
            Some(hash) => {
                let computed = crate::hashing::sha256_hex(password.as_bytes());
                computed == *hash
            },
            None => false,
        }
    }
}

/// OAuth provider kinds.
#[derive(Clone, Copy, PartialEq, Eq, Structural, Debug)]
pub enum OAuthProvider {
    Google,
    GitHub,
}

impl OAuthProvider {
    /// The stable lower-case name of this provider.
    pub open spec fn label_spec(self) -> Seq<char> {
        match self {
            OAuthProvider::Google => "google"@,
            OAuthProvider::GitHub => "github"@,
        }
    }

    /// The stable lower-case name of this provider.
    pub fn label(&self) -> (r: String)
        ensures
            r@ == self.label_spec(),
    {
        match self {
            OAuthProvider::Google => String::from_str("google"),
            OAuthProvider::GitHub => String::from_str("github"),
        }
    }

    /// Parse a provider name, case-insensitively.
    pub fn parse(s: &str) -> (r: Result<OAuthProvider, String>)
        ensures
            match r {
                Ok(p) => lower_bytes(utf8_bytes(s@)) == utf8_bytes(p.label_spec()),
                Err(e) => {
                    &&& lower_bytes(utf8_bytes(s@)) != utf8_bytes("google"@)
                    &&& lower_bytes(utf8_bytes(s@)) != utf8_bytes("github"@)
                    &&& e@ == "Unknown provider: "@ + s@
                },
            },
    {
        let low = crate::text::lower_vec(s.as_bytes());
        if bytes_eq(low.as_slice(), "google".as_bytes()) {
            Ok(OAuthProvider::Google)
        } else if bytes_eq(low.as_slice(), "github".as_bytes()) {
            Ok(OAuthProvider::GitHub)
        } else {
            let mut msg = String::from_str("Unknown provider: ");
            msg.append(s);
            Err(msg)
        }
    }
}

impl core::str::FromStr for OAuthProvider {
    type Err = String;

    fn from_str(s: &str) -> Result<OAuthProvider, String> {
        OAuthProvider::parse(s)
    }
}

/// An OAuth account linked to a user.
#[derive(Debug, Clone)]
pub struct OAuthAccount {
    /// Unique identifier.
    pub id: u128,
    /// The user this account belongs to.
    pub user_id: u128,
    /// OAuth provider.
    pub provider: OAuthProvider,
    /// The provider's account identifier.
    pub provider_account_id: String,
    /// Creation time, milliseconds since the Unix epoch.
    pub created_at: i64,
}

impl OAuthAccount {
    /// Link an OAuth account to a user.
    pub fn new(user_id: u128, provider: OAuthProvider, provider_account_id: String) -> (r:
        OAuthAccount)
        ensures
            r.user_id == user_id,
            r.provider == provider,
            r.provider_account_id == provider_account_id,
    {
        OAuthAccount {
            id: fresh_id(),
            user_id,
            provider,
            provider_account_id,
            created_at: now_millis(),
        }
    }
}

/// A user's membership in a company, for responses.
#[derive(Debug, Clone)]
pub struct UserCompanyMembership {
    /// Company identifier.
    pub id: u128,
    /// Company name.
    pub name: String,
    /// Company slug.
    pub slug: String,
    /// The user's role in the company.
    pub role: String,
}

} // verus!
