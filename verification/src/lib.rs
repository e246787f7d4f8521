//! Authentication engine: credential storage with a username-uniqueness
//! guarantee, salted password hashing, and the session-token lifecycle
//! (issue, validate, expire, revoke).

pub mod credentials;
pub mod engine;
pub mod errors;
pub mod hashing;
pub mod kv;
pub mod laws;
pub mod random;
pub mod store;
pub mod strutil;
pub mod types;
pub mod wire;

pub use credentials::Credentials;
pub use engine::Authenticator;
pub use errors::AuthError;
pub use errors::AuthError as ServiceError;
pub use errors::Response;
pub use types::AuthenticateResult;
pub use types::LoginInfo;
pub use types::ProfilePicture;
pub use types::SessionToken;
pub use types::User;
pub use types::UserExistsParams;
pub use types::Username;
pub use wire::ServiceErrorInner;
pub use wire::ServiceErrorJSON;
