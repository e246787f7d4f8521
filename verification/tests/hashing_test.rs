use auth::credentials::Credentials;
use auth::hashing::create_hash;
use auth::random::random_alphanumeric;
use auth::{LoginInfo, SessionToken};

/// Known answer for PBKDF2 with HMAC-SHA-256, password "password", salt
/// "salt", 4096 iterations and a 32-byte output, hex-encoded.
const KNOWN_DIGEST: &str = "c5e478d59288c841aa530db6845c4c8d962893a001ce4e11a4963873aa98134a";

#[test]
fn test_known_pbkdf2_vector() {
    assert_eq!(create_hash("password", "salt"), KNOWN_DIGEST);
}

#[test]
fn test_credentials_store_hex_digest() {
    let info = LoginInfo::new("user", "password");
    let credentials = Credentials::with_salt(&info, "salt".to_string());
    assert_eq!(credentials.username(), "user");
    assert_eq!(credentials.salt(), "salt");
    assert_eq!(credentials.password_hash(), KNOWN_DIGEST);
}

#[test]
fn test_hash_is_deterministic() {
    let first = Credentials::with_salt(&LoginInfo::new("a", "password"), "salt".to_string());
    let second = Credentials::with_salt(&LoginInfo::new("b", "password"), "salt".to_string());
    assert_eq!(first.password_hash(), second.password_hash());
    assert_eq!(create_hash("password", "salt"), create_hash("password", "salt"));
}

#[test]
fn test_different_salts_give_different_digests() {
    let first = create_hash("password", "salt-one");
    let second = create_hash("password", "salt-two");
    assert_ne!(first, second);
}

#[test]
fn test_matches_accepts_right_and_rejects_wrong_password() {
    let info = LoginInfo::new("user", "password");
    let credentials = Credentials::with_salt(&info, "salt".to_string());
    assert!(credentials.matches(&LoginInfo::new("user", "password")));
    assert!(!credentials.matches(&LoginInfo::new("user", "Password")));
    assert!(!credentials.matches(&LoginInfo::new("user", "")));
}

#[test]
fn test_fresh_credentials_draw_distinct_salts() {
    let info = LoginInfo::new("user", "password");
    let first = Credentials::new(&info);
    let second = Credentials::new(&info);
    assert_eq!(first.salt().len(), 32);
    assert!(first.salt().chars().all(|c| c.is_ascii_alphanumeric()));
    assert_ne!(first.salt(), second.salt());
    assert_ne!(first.password_hash(), second.password_hash());
}

#[test]
fn test_random_alphanumeric_shape() {
    let first = random_alphanumeric(32);
    let second = random_alphanumeric(32);
    assert_eq!(first.len(), 32);
    assert!(first.chars().all(|c| c.is_ascii_alphanumeric()));
    assert_ne!(first, second);
    assert_eq!(random_alphanumeric(0).len(), 0);
}

#[test]
fn test_session_token_shape() {
    let token = SessionToken::new("alice".to_string());
    assert_eq!(token.username(), "alice");
    assert_eq!(token.token().len(), 32);
    assert!(token.token().chars().all(|c| c.is_ascii_alphanumeric()));

    let rebuilt = SessionToken::from_parts("alice", token.token());
    assert_eq!(rebuilt.token(), token.token());
    assert_eq!(rebuilt.username(), "alice");
}
