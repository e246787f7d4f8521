use auth::store::is_within_ttl;
use auth::{AuthError, Authenticator, LoginInfo, SessionToken};

/// A fixed request time for tests that do not exercise expiry.
const NOW: u64 = 1_700_000_000;

/// Thirty days, the session time-to-live, in seconds.
const TTL: u64 = 2_592_000;

fn get_authenticator() -> Authenticator {
    Authenticator::new()
}

#[test]
fn test_register_succeeds() {
    let mut auth = get_authenticator();
    let result = auth.register(LoginInfo::new("username", "password"), NOW);

    assert!(result.is_ok());
}

#[test]
fn test_register_fails_if_username_is_taken() {
    let mut auth = get_authenticator();
    let result = auth.register(LoginInfo::new("username", "password"), NOW);
    assert!(result.is_ok());

    let result = auth.register(LoginInfo::new("username", "another password"), NOW);

    if result.is_ok() {
        panic!("Expected to fail registering a username that is already taken");
    }

    assert_eq!(
        result.unwrap_err(),
        AuthError::UsernameTaken("username".to_string())
    );
}

#[test]
fn test_register_returns_session_token() {
    let mut auth = get_authenticator();
    let result = auth.register(LoginInfo::new("username", "password"), NOW);
    assert!(result.is_ok());

    let token = result.unwrap();
    assert_eq!(token.username(), "username");
}

#[test]
fn test_register_session_token_can_auth() {
    let mut auth = get_authenticator();
    let result = auth.register(LoginInfo::new("username", "password"), NOW);
    assert!(result.is_ok());

    let token = result.unwrap();

    let result = auth.authenticate(token.token(), NOW);
    assert!(result.is_ok());
}

#[test]
fn test_invalid_session_token_fails_auth() {
    let mut auth = get_authenticator();
    let result = auth.register(LoginInfo::new("username", "password"), NOW);
    assert!(result.is_ok());

    let token = result.unwrap();
    let wrong_token = SessionToken::from_parts(token.username(), "token");

    let result = auth.authenticate(wrong_token.token(), NOW);

    if result.is_ok() {
        panic!("Expected to fail authenticating with an invalid token");
    }

    assert_eq!(result.unwrap_err(), AuthError::AuthenticationError);
}

#[test]
fn test_login_fails_before_register() {
    let mut auth = get_authenticator();

    let info = LoginInfo::new("username", "password");
    let result = auth.login(info, NOW);
    assert!(result.is_err(), "Login should fail before registration");
}

#[test]
fn test_can_login_after_register() {
    let mut auth = get_authenticator();
    let result = auth.register(LoginInfo::new("username", "password"), NOW);
    assert!(result.is_ok());

    let result = auth.login(LoginInfo::new("username", "password"), NOW);
    assert!(result.is_ok());
}

#[test]
fn test_login_wrong_password() {
    let mut auth = get_authenticator();
    let result = auth.register(LoginInfo::new("username", "password"), NOW);
    assert!(result.is_ok());

    let wrong_info = LoginInfo::new("username", "wrong password");
    let result = auth.login(wrong_info, NOW);
    assert!(result.is_err(), "Login should fail with wrong password");
}

#[test]
fn test_login_returns_session_token() {
    let mut auth = get_authenticator();

    assert!(auth
        .register(LoginInfo::new("username", "password"), NOW)
        .is_ok());

    let result = auth.login(LoginInfo::new("username", "password"), NOW);
    assert!(result.is_ok());

    let token = result.unwrap();
    assert_eq!(token.username(), "username");
}

#[test]
fn test_login_session_token_can_auth() {
    let mut auth = get_authenticator();

    assert!(auth
        .register(LoginInfo::new("username", "password"), NOW)
        .is_ok());

    let result = auth.login(LoginInfo::new("username", "password"), NOW);
    assert!(result.is_ok());

    let token = result.unwrap();

    let result = auth.authenticate(token.token(), NOW);
    assert!(result.is_ok());
}

#[test]
fn test_logout() {
    let mut auth = get_authenticator();

    assert!(auth
        .register(LoginInfo::new("username", "password"), NOW)
        .is_ok());

    let result = auth.login(LoginInfo::new("username", "password"), NOW);
    assert!(result.is_ok());

    let token = result.unwrap();
    assert!(auth.logout(token.token()).is_ok());

    let result = auth.authenticate(token.token(), NOW);
    assert!(result.is_err(), "Login should fail after logout");
}

#[test]
fn test_logout_twice_is_not_an_error() {
    let mut auth = get_authenticator();
    let token = auth
        .register(LoginInfo::new("username", "password"), NOW)
        .unwrap();

    assert!(auth.logout(token.token()).is_ok());
    assert!(auth.logout(token.token()).is_ok());
    assert!(auth.logout("never-issued").is_ok());
}

#[test]
fn test_login_before_any_registration_is_user_not_found() {
    let mut auth = get_authenticator();
    let result = auth.login(LoginInfo::new("u2", "anything"), NOW);
    assert_eq!(result.unwrap_err(), AuthError::UserNotFound("u2".to_string()));
}

#[test]
fn test_login_wrong_password_is_invalid_password() {
    let mut auth = get_authenticator();
    assert!(auth.register(LoginInfo::new("u", "p"), NOW).is_ok());
    let result = auth.login(LoginInfo::new("u", "wrong"), NOW);
    assert_eq!(result.unwrap_err(), AuthError::InvalidPassword);
}

#[test]
fn test_expired_token_fails_auth() {
    let mut auth = get_authenticator();
    let issued: u64 = 1_000;
    let token = auth
        .register(LoginInfo::new("username", "password"), issued)
        .unwrap();

    let just_inside = issued + TTL - 1;
    assert!(auth.authenticate(token.token(), just_inside).is_ok());

    let expired = issued + TTL;
    let result = auth.authenticate(token.token(), expired);
    assert_eq!(result.unwrap_err(), AuthError::AuthenticationError);
}

#[test]
fn test_is_within_ttl_boundaries() {
    assert!(is_within_ttl(1_000, 1_000 + TTL - 1));
    assert!(!is_within_ttl(1_000, 1_000 + TTL));
    assert!(is_within_ttl(2_000, 1_000));
}

#[test]
fn test_reap_preserves_validity() {
    let mut auth = get_authenticator();
    let early = auth
        .register(LoginInfo::new("early", "password"), 1_000)
        .unwrap();
    let late = auth
        .register(LoginInfo::new("late", "password"), 2_000_000)
        .unwrap();

    let now = 1_000 + TTL;
    auth.reap_sessions(now);

    assert!(auth.authenticate(early.token(), now).is_err());
    assert!(auth.authenticate(late.token(), now).is_ok());
    assert!(auth.user_exists("early").unwrap());
}

#[test]
fn test_authorize_wrong_principal() {
    let mut auth = get_authenticator();
    let token = auth
        .register(LoginInfo::new("alice", "secret"), NOW)
        .unwrap();
    assert!(auth.register(LoginInfo::new("other_user", "pw"), NOW).is_ok());

    let result = auth.authorize(token.token(), "other_user", NOW);
    assert_eq!(result.unwrap_err(), AuthError::AuthorizationError);

    let result = auth.authorize("no-such-token", "alice", NOW);
    assert_eq!(result.unwrap_err(), AuthError::AuthenticationError);

    let result = auth.authorize(token.token(), "alice", NOW);
    assert_eq!(result.unwrap().username, "alice".to_string());
}

#[test]
fn test_user_exists() {
    let mut auth = get_authenticator();
    assert!(!auth.user_exists("username").unwrap());
    assert!(auth.register(LoginInfo::new("username", "pw"), NOW).is_ok());
    assert!(auth.user_exists("username").unwrap());
    assert!(!auth.user_exists("Username").unwrap());
}

#[test]
fn test_end_to_end_session_lifecycle() {
    let mut auth = get_authenticator();

    let t1 = auth
        .register(LoginInfo::new("alice", "secret"), NOW)
        .unwrap();
    assert_eq!(t1.username(), "alice");

    let authed = auth.authenticate(t1.token(), NOW).unwrap();
    assert_eq!(authed.username, "alice".to_string());

    let t2 = auth.login(LoginInfo::new("alice", "secret"), NOW).unwrap();
    assert_ne!(t1.token(), t2.token());
    assert!(auth.authenticate(t1.token(), NOW).is_ok());
    assert!(auth.authenticate(t2.token(), NOW).is_ok());

    assert!(auth.logout(t1.token()).is_ok());
    assert!(auth.authenticate(t1.token(), NOW).is_err());
    assert!(auth.authenticate(t2.token(), NOW).is_ok());
}
