//! Plain data carried between the engine and its callers.

use crate::random::{is_alphanumeric_ascii, random_alphanumeric};
use vstd::prelude::*;
use vstd::string::*;

verus! {

/// Length of a freshly generated session token, in characters.
pub const TOKEN_LENGTH: usize = 32;

/// Query parameters of an existence probe.
pub struct UserExistsParams {
    pub username: String,
}

/// The username a session token resolves to.
#[derive(Debug)]
pub struct AuthenticateResult {
    pub username: String,
}

impl vstd::std_specs::convert::FromSpecImpl<String> for AuthenticateResult {
    open spec fn obeys_from_spec() -> bool {
        true
    }

    open spec fn from_spec(username: String) -> Self {
        AuthenticateResult { username }
    }
}

impl From<String> for AuthenticateResult {
    fn from(username: String) -> (r: Self) {
        AuthenticateResult { username }
    }
}

/// A struct that contains the username and password of a login attempt.
/// Never persisted.
pub struct LoginInfo {
    pub username: String,
    pub password: String,
}

impl LoginInfo {
    /// Creates a new LoginInfo struct.
    pub fn new(username: &str, password: &str) -> (r: Self)
        ensures
            r.username@ == username@,
            r.password@ == password@,
    {
        LoginInfo { username: username.to_owned(), password: password.to_owned() }
    }
}

/// The mathematical content of a [`SessionToken`]: the bound username and
/// the opaque token string.
pub struct SessionTokenV {
    pub username: Seq<char>,
    pub token: Seq<char>,
}

/// A struct that contains a username and an opaque session token bound
/// to it.
#[derive(Debug)]
pub struct SessionToken {
    username: String,
    token: String,
}

impl View for SessionToken {
    type V = SessionTokenV;

    closed spec fn view(&self) -> SessionTokenV {
        SessionTokenV { username: self.username@, token: self.token@ }
    }
}

impl SessionToken {
    /// Creates a new random SessionToken given a username. The token part is
    /// freshly drawn from a cryptographically secure source; nothing beyond
    /// its length and alphabet is promised about it.
    pub fn new(username: String) -> (r: Self)
        ensures
            r@.username == username@,
            r@.token.len() == TOKEN_LENGTH,
            forall|i: int| 0 <= i < r@.token.len() ==> is_alphanumeric_ascii(#[trigger] r@.token[i]),
    {
        let token = random_alphanumeric(TOKEN_LENGTH);
        SessionToken { username, token }
    }

    /// Returns the username of the SessionToken.
    pub fn username(&self) -> (r: &String)
        ensures
            r@ == self@.username,
    {
        &self.username
    }

    /// Returns the token of the SessionToken.
    pub fn token(&self) -> (r: &String)
        ensures
            r@ == self@.token,
    {
        &self.token
    }

    /// Creates a new SessionToken from a username and a token.
    pub fn from_parts(username: &str, token: &str) -> (r: Self)
        ensures
            r@.username == username@,
            r@.token == token@,
    {
        SessionToken { username: username.to_owned(), token: token.to_owned() }
    }
}

/// A username, in the shape request and response bodies carry it.
#[derive(Debug)]
pub struct Username {
    pub username: String,
}

impl vstd::std_specs::convert::FromSpecImpl<String> for Username {
    open spec fn obeys_from_spec() -> bool {
        true
    }

    open spec fn from_spec(username: String) -> Self {
        Username { username }
    }
}

impl From<String> for Username {
    fn from(username: String) -> (r: Self) {
        Username { username }
    }
}

/// The URL of a user's profile picture, as the profile collaborator
/// stores it.
pub struct ProfilePicture {
    pub profile_picture: String,
}

impl vstd::std_specs::convert::FromSpecImpl<String> for ProfilePicture {
    open spec fn obeys_from_spec() -> bool {
        true
    }

    open spec fn from_spec(profile_picture: String) -> Self {
        ProfilePicture { profile_picture }
    }
}

impl From<String> for ProfilePicture {
    fn from(profile_picture: String) -> (r: Self) {
        ProfilePicture { profile_picture }
    }
}

/// A user profile: username and profile picture URL.
pub struct User {
    pub username: String,
    pub profile_picture: String,
}

impl User {
    pub fn new(username: String, profile_picture: String) -> (r: Self)
        ensures
            r.username == username,
            r.profile_picture == profile_picture,
    {
        Self { username, profile_picture }
    }
}

} // verus!
