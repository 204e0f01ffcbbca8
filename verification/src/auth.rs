//! Authentication domain logic: approver roles, token claims, configured
//! users and agent API keys.
//!
//! Keys and passwords are compared as lower-case hex SHA-256 digests.
//! Token signing and verification happen outside the library; the claims
//! a token carries are computed here.

use vstd::prelude::*;
use vstd::string::StringExecFns;

use crate::hashing::{hex_of, sha256_of, sha256_hex};
use crate::text::{bytes_eq, utf8_bytes};

verus! {

/// Approver-facing roles for authorization.
#[derive(Clone, Copy, PartialEq, Eq, Structural, Debug)]
pub enum UserRole {
    /// Can view review tasks but not decide them.
    Viewer,
    /// Can approve or reject review tasks.
    Reviewer,
    /// Full access including configuration.
    Admin,
}

impl UserRole {
    /// Can this role decide review tasks?
    pub fn can_review(&self) -> (r: bool)
        ensures
            r == (self == UserRole::Reviewer || self == UserRole::Admin),
    {
        matches!(self, UserRole::Reviewer | UserRole::Admin)
    }

    /// Does this role have administrative privileges?
    pub fn is_admin(&self) -> (r: bool)
        ensures
            r == (self == UserRole::Admin),
    {
        matches!(self, UserRole::Admin)
    }
}

/// Claims carried by an authentication token.
#[derive(Debug, Clone)]
pub struct Claims {
    /// Subject: the user identifier.
    pub sub: String,
    /// User email.
    pub email: String,
    /// User role.
    pub role: UserRole,
    /// Expiration time, Unix seconds.
    pub exp: i64,
    /// Issued-at time, Unix seconds.
    pub iat: i64,
    /// Issuer.
    pub iss: String,
}

impl Claims {
    /// Build the claims for a token issued at `now_secs` and valid for
    /// `duration_hours`; the expiry saturates rather than wrapping.
    pub fn new(
        user_id: &str,
        email: &str,
        role: UserRole,
        issuer: &str,
        now_secs: i64,
        duration_hours: i64,
    ) -> (r: Claims)
        ensures
            r.sub@ == user_id@,
            r.email@ == email@,
            r.role == role,
            r.iss@ == issuer@,
            r.iat == now_secs,
            i64::MIN <= duration_hours * 3600 <= i64::MAX && i64::MIN <= now_secs
                + duration_hours * 3600 <= i64::MAX ==> r.exp == now_secs + duration_hours * 3600,
    {
        let secs = match duration_hours.checked_mul(3600) {
            Some(s) => s,
            None => if duration_hours > 0 {
                i64::MAX
            } else {
                i64::MIN
            },
        };
        let exp = match now_secs.checked_add(secs) {
            Some(e) => e,
            None => if secs > 0 {
                i64::MAX
            } else {
                i64::MIN
            },
        };
        Claims {
            sub: String::from_str(user_id),
            email: String::from_str(email),
            role,
            exp,
            iat: now_secs,
            iss: String::from_str(issuer),
        }
    }
}

/// A configured console user.
#[derive(Debug, Clone)]
pub struct ConfiguredUser {
    /// User identifier.
    pub id: String,
    /// User email.
    pub email: String,
    /// Lower-case hex SHA-256 of the password.
    pub password_hash: String,
    /// User role.
    pub role: UserRole,
}

impl ConfiguredUser {
    /// Does this password hash to the stored digest?
    pub fn verify_password(&self, password: &str) -> (r: bool)
        ensures
            r == (hex_of(sha256_of(utf8_bytes(password@))) == self.password_hash@),
    {
        let computed = sha256_hex(password.as_bytes());
        computed == self.password_hash
    }
}

/// The first configured user whose email has these bytes, scanning from
/// index `i`.
pub open spec fn find_user(users: Seq<ConfiguredUser>, email: Seq<u8>, i: int) -> Option<
    ConfiguredUser,
>
    decreases users.len() - i,
{
    if i < 0 || i >= users.len() {
        None
    } else if utf8_bytes(users[i].email@) == email {
        Some(users[i])
    } else {
        find_user(users, email, i + 1)
    }
}

/// In-memory store of configured users, looked up by email.
#[derive(Debug, Clone)]
pub struct UserStore {
    /// The configured users, in configuration order.
    pub users: Vec<ConfiguredUser>,
}

impl UserStore {
    /// Create a store over the configured users.
    pub fn new(users: Vec<ConfiguredUser>) -> (r: UserStore)
        ensures
            r.users == users,
    {
        UserStore { users }
    }

    /// Find the first user with this email.
    pub fn find_by_email(&self, email: &str) -> (r: Option<&ConfiguredUser>)
        ensures
            match r {
                Some(u) => find_user(self.users@, utf8_bytes(email@), 0) == Some(*u),
                None => find_user(self.users@, utf8_bytes(email@), 0) is None,
            },
    {
        let mut i: usize = 0;
        while i < self.users.len()
            invariant
                i <= self.users@.len(),
                find_user(self.users@, utf8_bytes(email@), 0) == find_user(
                    self.users@,
                    utf8_bytes(email@),
                    i as int,
                ),
            decreases self.users@.len() - i,
        {
            if bytes_eq(self.users[i].email.as_str().as_bytes(), email.as_bytes()) {
                return Some(&self.users[i]);
            }
            i = i + 1;
        }
        None
    }

    /// Authenticate: the first user with this email, provided the
    /// password matches their stored digest.
    pub fn authenticate(&self, email: &str, password: &str) -> (r: Option<&ConfiguredUser>)
        ensures
            match r {
                Some(u) => find_user(self.users@, utf8_bytes(email@), 0) == Some(*u) && hex_of(
                    sha256_of(utf8_bytes(password@)),
                ) == u.password_hash@,
                None => match find_user(self.users@, utf8_bytes(email@), 0) {
                    Some(u) => hex_of(sha256_of(utf8_bytes(password@))) != u.password_hash@,
                    None => true,
                },
            },
    {
        match self.find_by_email(email) {
            Some(user) => {
                if user.verify_password(password) {
                    Some(user)
                } else {
                    None
                }
            },
            None => None,
        }
    }
}

/// Metadata of one agent API key.
#[derive(Debug, Clone)]
pub struct ApiKeyInfo {
    /// Unique identifier for this key.
    pub key_id: String,
    /// Human-readable name.
    pub name: String,
    /// Associated client or agent identifier.
    pub client_id: String,
    /// Whether this key is active.
    pub active: bool,
    /// Optional rate limit.
    pub rate_limit: Option<u32>,
}

/// The fields of two key-info records agree.
pub open spec fn info_eq(a: ApiKeyInfo, b: ApiKeyInfo) -> bool {
    &&& a.key_id@ == b.key_id@
    &&& a.name@ == b.name@
    &&& a.client_id@ == b.client_id@
    &&& a.active == b.active
    &&& a.rate_limit == b.rate_limit
}

/// An API key as configured at startup.
#[derive(Debug, Clone)]
pub struct ConfiguredApiKey {
    /// Unique identifier for the key.
    pub id: String,
    /// The key value itself.
    pub key: String,
    /// Human-readable name.
    pub name: String,
    /// Associated client or agent identifier.
    pub client_id: String,
    /// Optional rate limit.
    pub rate_limit: Option<u32>,
}

/// The first stored key with this hash, scanning from index `i`.
pub open spec fn find_key(
    keys: Seq<(String, ApiKeyInfo)>,
    hash: Seq<char>,
    i: int,
) -> Option<ApiKeyInfo>
    decreases keys.len() - i,
{
    if i < 0 || i >= keys.len() {
        None
    } else if keys[i].0@ == hash {
        Some(keys[i].1)
    } else {
        find_key(keys, hash, i + 1)
    }
}

/// With no matching digest before index `i`, the scan from the start
/// agrees with the scan from `i`.
pub proof fn lemma_find_key_skip(keys: Seq<(String, ApiKeyInfo)>, hash: Seq<char>, i: int)
    requires
        0 <= i <= keys.len(),
        forall|k: int| 0 <= k < i ==> (#[trigger] keys[k]).0@ != hash,
    ensures
        find_key(keys, hash, 0) == find_key(keys, hash, i),
    decreases i,
{
    if i > 0 {
        lemma_find_key_skip(keys, hash, i - 1);
    }
}

/// Validator for agent API keys, holding each key's digest and
/// metadata.
#[derive(Debug, Clone)]
pub struct ApiKeyValidator {
    /// Pairs of key digest and key metadata, in configuration order.
    pub keys: Vec<(String, ApiKeyInfo)>,
}

impl ApiKeyValidator {
    /// The digest under which a key is stored and compared.
    pub fn hash_key(key: &str) -> (r: String)
        ensures
            r@ == hex_of(sha256_of(utf8_bytes(key@))),
    {
        sha256_hex(key.as_bytes())
    }

    /// Create a validator from the configured keys; every configured key
    /// starts active.
    pub fn new(configured_keys: Vec<ConfiguredApiKey>) -> (r: ApiKeyValidator)
        ensures
            r.keys@.len() == configured_keys@.len(),
            forall|i: int|
                0 <= i < configured_keys@.len() ==> {
                    &&& (#[trigger] r.keys@[i]).0@ == hex_of(
                        sha256_of(utf8_bytes(configured_keys@[i].key@)),
                    )
                    &&& r.keys@[i].1.key_id@ == configured_keys@[i].id@
                    &&& r.keys@[i].1.name@ == configured_keys@[i].name@
                    &&& r.keys@[i].1.client_id@ == configured_keys@[i].client_id@
                    &&& r.keys@[i].1.active
                    &&& r.keys@[i].1.rate_limit == configured_keys@[i].rate_limit
                },
    {
        let mut keys: Vec<(String, ApiKeyInfo)> = Vec::new();
        let mut i: usize = 0;
        while i < configured_keys.len()
            invariant
                i <= configured_keys@.len(),
                keys@.len() == i,
                forall|k: int|
                    0 <= k < i ==> {
                        &&& (#[trigger] keys@[k]).0@ == hex_of(
                            sha256_of(utf8_bytes(configured_keys@[k].key@)),
                        )
                        &&& keys@[k].1.key_id@ == configured_keys@[k].id@
                        &&& keys@[k].1.name@ == configured_keys@[k].name@
                        &&& keys@[k].1.client_id@ == configured_keys@[k].client_id@
                        &&& keys@[k].1.active
                        &&& keys@[k].1.rate_limit == configured_keys@[k].rate_limit
                    },
            decreases configured_keys@.len() - i,
        {
            let ck = &configured_keys[i];
            let hashed = ApiKeyValidator::hash_key(ck.key.as_str());
            let info = ApiKeyInfo {
                key_id: String::from_str(ck.id.as_str()),
                name: String::from_str(ck.name.as_str()),
                client_id: String::from_str(ck.client_id.as_str()),
                active: true,
                rate_limit: ck.rate_limit,
            };
            keys.push((hashed, info));
            i = i + 1;
        }
        ApiKeyValidator { keys }
    }

    /// Validate a key: look its digest up and require it to be active.
    pub fn validate(&self, key: &str) -> (r: Option<ApiKeyInfo>)
        ensures
            match find_key(self.keys@, hex_of(sha256_of(utf8_bytes(key@))), 0) {
                Some(info) => if info.active {
                    r matches Some(x) && info_eq(x, info)
                } else {
                    r is None
                },
                None => r is None,
            },
    {
        let hashed = ApiKeyValidator::hash_key(key);
        let mut i: usize = 0;
        while i < self.keys.len()
            invariant
                i <= self.keys@.len(),
                hashed@ == hex_of(sha256_of(utf8_bytes(key@))),
                find_key(self.keys@, hashed@, 0) == find_key(self.keys@, hashed@, i as int),
            decreases self.keys@.len() - i,
        {
            if self.keys[i].0 == hashed {
                let info = &self.keys[i].1;
                if info.active {
                    return Some(
                        ApiKeyInfo {
                            key_id: String::from_str(info.key_id.as_str()),
                            name: String::from_str(info.name.as_str()),
                            client_id: String::from_str(info.client_id.as_str()),
                            active: info.active,
                            rate_limit: info.rate_limit,
                        },
                    );
                } else {
                    return None;
                }
            }
            i = i + 1;
        }
        None
    }

    /// Add a key at runtime: replace the first entry with the same
    /// digest, or append a new one.
    pub fn add_key(&mut self, key: &str, info: ApiKeyInfo)
        ensures
            match find_key(old(self).keys@, hex_of(sha256_of(utf8_bytes(key@))), 0) {
                Some(_) => final(self).keys@.len() == old(self).keys@.len(),
                None => final(self).keys@.len() == old(self).keys@.len() + 1,
            },
            find_key(final(self).keys@, hex_of(sha256_of(utf8_bytes(key@))), 0) matches Some(x)
                && info_eq(x, info),
    {
        let hashed = ApiKeyValidator::hash_key(key);
        let mut i: usize = 0;
        while i < self.keys.len()
            invariant
                i <= self.keys@.len(),
                hashed@ == hex_of(sha256_of(utf8_bytes(key@))),
                self.keys == old(self).keys,
                find_key(self.keys@, hashed@, 0) == find_key(self.keys@, hashed@, i as int),
                forall|k: int| 0 <= k < i ==> (#[trigger] self.keys@[k]).0@ != hashed@,
            decreases self.keys@.len() - i,
        {
            if self.keys[i].0 == hashed {
                let mut rebuilt: Vec<(String, ApiKeyInfo)> = Vec::new();
                let mut j: usize = 0;
                while j < self.keys.len()
                    invariant
                        j <= self.keys@.len(),
                        i < self.keys@.len(),
                        self.keys == old(self).keys,
                        hashed@ == hex_of(sha256_of(utf8_bytes(key@))),
                        self.keys@[i as int].0@ == hashed@,
                        forall|k: int| 0 <= k < i ==> (#[trigger] self.keys@[k]).0@ != hashed@,
                        rebuilt@.len() == j,
                        forall|k: int|
                            0 <= k < j && k != i ==> (#[trigger] rebuilt@[k]).0@
                                == self.keys@[k].0@,
                        i < j ==> rebuilt@[i as int].0@ == hashed@ && info_eq(
                            rebuilt@[i as int].1,
                            info,
                        ),
                    decreases self.keys@.len() - j,
                {
                    if j == i {
                        rebuilt.push(
                            (
                                String::from_str(hashed.as_str()),
                                ApiKeyInfo {
                                    key_id: String::from_str(info.key_id.as_str()),
                                    name: String::from_str(info.name.as_str()),
                                    client_id: String::from_str(info.client_id.as_str()),
                                    active: info.active,
                                    rate_limit: info.rate_limit,
                                },
                            ),
                        );
                    } else {
                        let p = &self.keys[j];
                        rebuilt.push(
                            (
                                String::from_str(p.0.as_str()),
                                ApiKeyInfo {
                                    key_id: String::from_str(p.1.key_id.as_str()),
                                    name: String::from_str(p.1.name.as_str()),
                                    client_id: String::from_str(p.1.client_id.as_str()),
                                    active: p.1.active,
                                    rate_limit: p.1.rate_limit,
                                },
                            ),
                        );
                    }
                    j = j + 1;
                }
                proof {
                    lemma_find_key_skip(rebuilt@, hashed@, i as int);
                    lemma_find_key_skip(self.keys@, hashed@, i as int);
                }
                self.keys = rebuilt;
                return;
            }
            i = i + 1;
        }
        proof {
            lemma_find_key_skip(self.keys@.push((hashed, info)), hashed@, self.keys@.len() as int);
            lemma_find_key_skip(self.keys@, hashed@, self.keys@.len() as int);
        }
        self.keys.push((hashed, info));
    }

    /// Revoke every key with this identifier.
    pub fn revoke_key(&mut self, key_id: &str)
        ensures
            final(self).keys@.len() == old(self).keys@.len(),
            forall|i: int|
                0 <= i < old(self).keys@.len() ==> {
                    &&& (#[trigger] final(self).keys@[i]).0@ == old(self).keys@[i].0@
                    &&& final(self).keys@[i].1.key_id@ == old(self).keys@[i].1.key_id@
                    &&& final(self).keys@[i].1.active == (old(self).keys@[i].1.active
                        && utf8_bytes(old(self).keys@[i].1.key_id@) != utf8_bytes(key_id@))
                },
    {
        let mut rebuilt: Vec<(String, ApiKeyInfo)> = Vec::new();
        let mut i: usize = 0;
        while i < self.keys.len()
            invariant
                i <= self.keys@.len(),
                self.keys == old(self).keys,
                rebuilt@.len() == i,
                forall|k: int|
                    0 <= k < i ==> {
                        &&& (#[trigger] rebuilt@[k]).0@ == old(self).keys@[k].0@
                        &&& rebuilt@[k].1.key_id@ == old(self).keys@[k].1.key_id@
                        &&& rebuilt@[k].1.active == (old(self).keys@[k].1.active && utf8_bytes(
                            old(self).keys@[k].1.key_id@,
                        ) != utf8_bytes(key_id@))
                    },
            decreases self.keys@.len() - i,
        {
            let p = &self.keys[i];
            let keep_active = p.1.active && !bytes_eq(
                p.1.key_id.as_str().as_bytes(),
                key_id.as_bytes(),
            );
            rebuilt.push(
                (
                    String::from_str(p.0.as_str()),
                    ApiKeyInfo {
                        key_id: String::from_str(p.1.key_id.as_str()),
                        name: String::from_str(p.1.name.as_str()),
                        client_id: String::from_str(p.1.client_id.as_str()),
                        active: keep_active,
                        rate_limit: p.1.rate_limit,
                    },
                ),
            );
            i = i + 1;
        }
        self.keys = rebuilt;
    }
}

} // verus!
