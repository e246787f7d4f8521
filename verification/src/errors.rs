//! The error taxonomy of the service: every failure a caller can see, with
//! its stable type discriminant, human-readable message and HTTP status code.

use vstd::prelude::*;
use vstd::string::*;

verus! {

/// A failure of an authentication operation or of the surrounding service.
#[derive(Debug, PartialEq, Eq)]
pub enum AuthError {
    /// The requested resource was not found.
    NotFound,
    /// The request body could not be parsed as JSON.
    JsonParsingError(String),
    /// The user was not found in the credential store.
    UserNotFound(String),
    /// Attempted to register a username that is already taken.
    UsernameTaken(String),
    /// The storage backend failed or timed out.
    DatabaseError(String),
    /// Attempted to log in with an invalid password.
    InvalidPassword,
    /// The session token is unknown, expired or revoked.
    AuthenticationError,
    /// The session token is valid but bound to a different principal.
    AuthorizationError,
    /// The authorization header is missing or malformed.
    AuthorizationHeaderError,
}

/// The HTTP status code that each error maps to.
pub open spec fn spec_status_code(e: AuthError) -> u16 {
    match e {
        AuthError::NotFound => 404,
        AuthError::JsonParsingError(_) => 400,
        AuthError::UserNotFound(_) => 404,
        AuthError::UsernameTaken(_) => 409,
        AuthError::DatabaseError(_) => 500,
        AuthError::InvalidPassword => 401,
        AuthError::AuthenticationError => 401,
        AuthError::AuthorizationError => 403,
        AuthError::AuthorizationHeaderError => 400,
    }
}

/// The human-readable message of each error.
pub open spec fn spec_error_message(e: AuthError) -> Seq<char> {
    match e {
        AuthError::NotFound => "Page not found"@,
        AuthError::JsonParsingError(s) => s@,
        AuthError::UserNotFound(name) => "User '"@ + name@ + "' does not exist"@,
        AuthError::UsernameTaken(name) => "Username '"@ + name@ + "' is taken"@,
        AuthError::DatabaseError(s) => s@,
        AuthError::InvalidPassword => "Invalid password"@,
        AuthError::AuthenticationError => "Failed to authenticate user"@,
        AuthError::AuthorizationError => "Failed to authorize user"@,
        AuthError::AuthorizationHeaderError => "Authorization `Breaker` header is missing"@,
    }
}

/// The stable type discriminant of each error, as it appears on the wire.
pub open spec fn spec_error_type(e: AuthError) -> Seq<char> {
    match e {
        AuthError::NotFound => "PageNotFound"@,
        AuthError::JsonParsingError(_) => "JsonParsingError"@,
        AuthError::UserNotFound(_) => "UserNotFound"@,
        AuthError::UsernameTaken(_) => "UsernameTaken"@,
        AuthError::DatabaseError(_) => "DatabaseError"@,
        AuthError::InvalidPassword => "InvalidPassword"@,
        AuthError::AuthenticationError => "AuthenticationError"@,
        AuthError::AuthorizationError => "AuthorizationError"@,
        AuthError::AuthorizationHeaderError => "AuthorizationHeaderError"@,
    }
}

impl AuthError {
    /// Get the status code for this error.
    pub fn status_code(&self) -> (r: u16)
        ensures
            r == spec_status_code(*self),
    {
        match self {
            AuthError::NotFound => 404,
            AuthError::JsonParsingError(_) => 400,
            AuthError::UserNotFound(_) => 404,
            AuthError::UsernameTaken(_) => 409,
            AuthError::DatabaseError(_) => 500,
            AuthError::InvalidPassword => 401,
            AuthError::AuthenticationError => 401,
            AuthError::AuthorizationError => 403,
            AuthError::AuthorizationHeaderError => 400,
        }
    }

    /// Get the error message for this error.
    pub fn error_message(&self) -> (r: String)
        ensures
            r@ == spec_error_message(*self),
    {
        match self {
            AuthError::NotFound => String::from_str("Page not found"),
            AuthError::JsonParsingError(s) => s.clone(),
            AuthError::UserNotFound(name) => {
                let mut m = String::from_str("User '");
                m.append(name.as_str());
                m.append("' does not exist");
                m
            },
            AuthError::UsernameTaken(name) => {
                let mut m = String::from_str("Username '");
                m.append(name.as_str());
                m.append("' is taken");
                m
            },
            AuthError::DatabaseError(s) => s.clone(),
            AuthError::InvalidPassword => String::from_str("Invalid password"),
            AuthError::AuthenticationError => String::from_str("Failed to authenticate user"),
            AuthError::AuthorizationError => String::from_str("Failed to authorize user"),
            AuthError::AuthorizationHeaderError => String::from_str(
                "Authorization `Breaker` header is missing",
            ),
        }
    }

    /// Get the error type as a string for this error.
    pub fn error_type(&self) -> (r: String)
        ensures
            r@ == spec_error_type(*self),
    {
        match self {
            AuthError::NotFound => String::from_str("PageNotFound"),
            AuthError::JsonParsingError(_) => String::from_str("JsonParsingError"),
            AuthError::UserNotFound(_) => String::from_str("UserNotFound"),
            AuthError::UsernameTaken(_) => String::from_str("UsernameTaken"),
            AuthError::DatabaseError(_) => String::from_str("DatabaseError"),
            AuthError::InvalidPassword => String::from_str("InvalidPassword"),
            AuthError::AuthenticationError => String::from_str("AuthenticationError"),
            AuthError::AuthorizationError => String::from_str("AuthorizationError"),
            AuthError::AuthorizationHeaderError => String::from_str("AuthorizationHeaderError"),
        }
    }
}

/// A result limited to [`AuthError`] failures, in the shape a response
/// handler consumes.
pub enum Response<T> {
    Success(T),
    Failure(AuthError),
}

impl<T> vstd::std_specs::convert::FromSpecImpl<Result<T, AuthError>> for Response<T> {
    open spec fn obeys_from_spec() -> bool {
        true
    }

    open spec fn from_spec(res: Result<T, AuthError>) -> Self {
        match res {
            Ok(value) => Response::Success(value),
            Err(err) => Response::Failure(err),
        }
    }
}

impl<T> From<Result<T, AuthError>> for Response<T> {
    fn from(res: Result<T, AuthError>) -> (r: Self) {
        match res {
            Ok(value) => Response::Success(value),
            Err(err) => Response::Failure(err),
        }
    }
}

} // verus!
