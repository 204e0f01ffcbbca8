//! Tests for authentication logic: roles, claims, user store and API
//! key validation.

use shield_core::auth::{
    ApiKeyValidator, Claims, ConfiguredApiKey, ConfiguredUser, UserRole, UserStore,
};
use shield_core::hashing::sha256_hex;
use sha2::Digest;

fn hash_of(s: &str) -> String {
    let mut hasher = sha2::Sha256::new();
    hasher.update(s.as_bytes());
    hex::encode(hasher.finalize())
}

#[test]
fn test_role_permissions() {
    assert!(!UserRole::Viewer.can_review());
    assert!(UserRole::Reviewer.can_review());
    assert!(UserRole::Admin.can_review());
    assert!(UserRole::Admin.is_admin());
    assert!(!UserRole::Reviewer.is_admin());
}

#[test]
fn test_sha256_hex_known_vector() {
    // The digest of the empty input is a published constant; this pins
    // the digest and hex wrappers to the real algorithms.
    assert_eq!(
        sha256_hex(b""),
        "e3b0c44298fc1c149afbf4c8996fb92427ae41e4649b934ca495991b7852b855"
    );
    assert_eq!(
        sha256_hex(b"abc"),
        "ba7816bf8f01cfea414140de5dae2223b00361a396177a9cb410ff61f20015ad"
    );
}

#[test]
fn test_user_authentication() {
    let users = vec![ConfiguredUser {
        id: "user-1".to_string(),
        email: "admin@example.com".to_string(),
        password_hash: hash_of("password123"),
        role: UserRole::Admin,
    }];

    let store = UserStore::new(users);

    // Valid credentials.
    assert!(store.authenticate("admin@example.com", "password123").is_some());

    // Wrong password.
    assert!(store.authenticate("admin@example.com", "wrong").is_none());

    // Unknown user.
    assert!(store.authenticate("unknown@example.com", "password123").is_none());
}

#[test]
fn test_find_by_email() {
    let users = vec![
        ConfiguredUser {
            id: "u1".to_string(),
            email: "a@example.com".to_string(),
            password_hash: hash_of("pw1"),
            role: UserRole::Viewer,
        },
        ConfiguredUser {
            id: "u2".to_string(),
            email: "b@example.com".to_string(),
            password_hash: hash_of("pw2"),
            role: UserRole::Reviewer,
        },
    ];
    let store = UserStore::new(users);
    assert_eq!(store.find_by_email("b@example.com").unwrap().id, "u2");
    assert!(store.find_by_email("c@example.com").is_none());
}

#[test]
fn test_api_key_validation() {
    let keys = vec![ConfiguredApiKey {
        id: "key-1".to_string(),
        key: "sk-test-key-12345".to_string(),
        name: "Test Agent".to_string(),
        client_id: "agent-001".to_string(),
        rate_limit: Some(100),
    }];

    let validator = ApiKeyValidator::new(keys);

    // Valid key.
    let result = validator.validate("sk-test-key-12345");
    assert!(result.is_some());
    assert_eq!(result.unwrap().client_id, "agent-001");

    // Invalid key.
    let result = validator.validate("wrong-key");
    assert!(result.is_none());
}

#[test]
fn test_key_revocation() {
    let keys = vec![ConfiguredApiKey {
        id: "key-1".to_string(),
        key: "sk-test-key".to_string(),
        name: "Test".to_string(),
        client_id: "agent".to_string(),
        rate_limit: None,
    }];

    let mut validator = ApiKeyValidator::new(keys);

    // Initially valid.
    assert!(validator.validate("sk-test-key").is_some());

    // Revoke.
    validator.revoke_key("key-1");

    // Now invalid.
    assert!(validator.validate("sk-test-key").is_none());
}

#[test]
fn test_claims_expiry() {
    let claims = Claims::new("user-1", "admin@example.com", UserRole::Admin, "shield-core", 1000, 24);
    assert_eq!(claims.sub, "user-1");
    assert_eq!(claims.email, "admin@example.com");
    assert_eq!(claims.role, UserRole::Admin);
    assert_eq!(claims.iat, 1000);
    assert_eq!(claims.exp, 1000 + 24 * 3600);
    assert_eq!(claims.iss, "shield-core");
}

#[test]
fn test_config_defaults() {
    let auth = shield_core::config::AuthConfig::default();
    assert!(!auth.enabled);
    assert_eq!(auth.jwt_issuer, "shield-core");
    assert_eq!(auth.token_duration_hours, 24);
    assert!(auth.api_keys.is_empty());
    assert!(auth.users.is_empty());
}
