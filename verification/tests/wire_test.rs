use auth::wire::parse_bearer_header;
use auth::wire::check_authenticated_username;
use auth::{AuthError, Response, ServiceError, ServiceErrorInner, ServiceErrorJSON};

#[test]
fn test_error_messages() {
    assert_eq!(
        AuthError::UserNotFound("bob".to_string()).error_message(),
        "User 'bob' does not exist"
    );
    assert_eq!(
        AuthError::UsernameTaken("bob".to_string()).error_message(),
        "Username 'bob' is taken"
    );
    assert_eq!(AuthError::NotFound.error_message(), "Page not found");
    assert_eq!(AuthError::InvalidPassword.error_message(), "Invalid password");
    assert_eq!(
        AuthError::AuthenticationError.error_message(),
        "Failed to authenticate user"
    );
    assert_eq!(
        AuthError::DatabaseError("timed out".to_string()).error_message(),
        "timed out"
    );
    assert_eq!(
        AuthError::JsonParsingError("bad body".to_string()).error_message(),
        "bad body"
    );
}

#[test]
fn test_error_types() {
    assert_eq!(AuthError::UserNotFound("b".to_string()).error_type(), "UserNotFound");
    assert_eq!(AuthError::UsernameTaken("b".to_string()).error_type(), "UsernameTaken");
    assert_eq!(AuthError::NotFound.error_type(), "PageNotFound");
    assert_eq!(AuthError::JsonParsingError("x".to_string()).error_type(), "JsonParsingError");
    assert_eq!(AuthError::DatabaseError("x".to_string()).error_type(), "DatabaseError");
    assert_eq!(AuthError::InvalidPassword.error_type(), "InvalidPassword");
    assert_eq!(AuthError::AuthenticationError.error_type(), "AuthenticationError");
    assert_eq!(AuthError::AuthorizationError.error_type(), "AuthorizationError");
    assert_eq!(
        AuthError::AuthorizationHeaderError.error_type(),
        "AuthorizationHeaderError"
    );
}

#[test]
fn test_status_codes() {
    assert_eq!(AuthError::UserNotFound("b".to_string()).status_code(), 404);
    assert_eq!(AuthError::JsonParsingError("x".to_string()).status_code(), 400);
    assert_eq!(AuthError::NotFound.status_code(), 404);
    assert_eq!(AuthError::UsernameTaken("b".to_string()).status_code(), 409);
    assert_eq!(AuthError::DatabaseError("x".to_string()).status_code(), 500);
    assert_eq!(AuthError::InvalidPassword.status_code(), 401);
    assert_eq!(AuthError::AuthenticationError.status_code(), 401);
    assert_eq!(AuthError::AuthorizationError.status_code(), 403);
    assert_eq!(AuthError::AuthorizationHeaderError.status_code(), 400);
}

#[test]
fn test_error_body_shape() {
    assert_eq!(
        AuthError::UsernameTaken("bob".to_string()).to_json_body(),
        "{\"error\":{\"type\":\"UsernameTaken\",\"message\":\"Username 'bob' is taken\"}}"
    );
    assert_eq!(
        AuthError::NotFound.to_json_body(),
        "{\"error\":{\"type\":\"PageNotFound\",\"message\":\"Page not found\"}}"
    );
}

#[test]
fn test_error_body_escapes() {
    assert_eq!(
        AuthError::JsonParsingError("a\"b\\c\nd".to_string()).to_json_body(),
        "{\"error\":{\"type\":\"JsonParsingError\",\"message\":\"a\\\"b\\\\c\\u000ad\"}}"
    );
}

#[test]
fn test_get_username_extracts_quoted_span() {
    let inner = ServiceErrorInner {
        kind: "UserNotFound".to_string(),
        message: "User 'alice' does not exist".to_string(),
    };
    assert_eq!(inner.get_username(), "alice");

    let tricky = ServiceErrorInner {
        kind: "UsernameTaken".to_string(),
        message: "Username 'a'b'c' is taken".to_string(),
    };
    assert_eq!(tricky.get_username(), "a'b'c");
}

#[test]
fn test_from_wire_reconstructs_errors() {
    let wire = ServiceErrorJSON {
        error: ServiceErrorInner {
            kind: "UserNotFound".to_string(),
            message: "User 'alice' does not exist".to_string(),
        },
    };
    assert_eq!(AuthError::from_wire(&wire), AuthError::UserNotFound("alice".to_string()));

    let wire = ServiceErrorJSON {
        error: ServiceErrorInner {
            kind: "DatabaseError".to_string(),
            message: "timed out".to_string(),
        },
    };
    assert_eq!(AuthError::from_wire(&wire), AuthError::DatabaseError("timed out".to_string()));

    let wire = ServiceErrorJSON {
        error: ServiceErrorInner {
            kind: "SomethingNew".to_string(),
            message: "whatever".to_string(),
        },
    };
    assert_eq!(AuthError::from_wire(&wire), AuthError::NotFound);
}

#[test]
fn test_wire_round_trip() {
    let errors = vec![
        ServiceError::UserNotFound("alice".to_string()),
        ServiceError::UsernameTaken("bob".to_string()),
        ServiceError::NotFound,
        ServiceError::JsonParsingError("bad".to_string()),
        ServiceError::DatabaseError("down".to_string()),
        ServiceError::InvalidPassword,
        ServiceError::AuthenticationError,
        ServiceError::AuthorizationError,
        ServiceError::AuthorizationHeaderError,
    ];
    for e in errors {
        let wire = ServiceErrorJSON {
            error: ServiceErrorInner { kind: e.error_type(), message: e.error_message() },
        };
        assert_eq!(AuthError::from_wire(&wire), e);
    }
}

#[test]
fn test_parse_bearer_header() {
    assert_eq!(
        parse_bearer_header(None).unwrap_err(),
        AuthError::AuthorizationHeaderError
    );
    assert_eq!(parse_bearer_header(Some("Bearer abc123")).unwrap(), "abc123");
    assert_eq!(
        parse_bearer_header(Some("Basic abc123")).unwrap_err(),
        AuthError::AuthorizationHeaderError
    );
    assert_eq!(
        parse_bearer_header(Some("Bearer")).unwrap_err(),
        AuthError::AuthorizationHeaderError
    );
    assert_eq!(parse_bearer_header(Some("Bearer ")).unwrap(), "");
}

#[test]
fn test_check_authenticated_username() {
    assert!(check_authenticated_username("alice", "alice").is_ok());
    assert_eq!(
        check_authenticated_username("alice", "bob").unwrap_err(),
        AuthError::AuthenticationError
    );
}

#[test]
fn test_response_from_result() {
    let ok: Response<u32> = Response::from(Ok(7));
    assert!(matches!(ok, Response::Success(7)));

    let err: Response<u32> = Response::from(Err(AuthError::InvalidPassword));
    assert!(matches!(err, Response::Failure(AuthError::InvalidPassword)));
}
