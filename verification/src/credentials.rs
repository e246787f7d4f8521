//! Stored credentials: a username with the salted digest of its password.

use crate::hashing::{create_hash, spec_hash};
use crate::random::{is_alphanumeric_ascii, random_alphanumeric};
use crate::strutil::str_eq;
use crate::types::LoginInfo;
use vstd::prelude::*;
use vstd::string::*;

verus! {

/// Length of a freshly generated salt, in characters.
pub const SALT_LENGTH: usize = 32;

/// The mathematical content of a [`Credentials`] record.
pub struct CredentialV {
    pub username: Seq<char>,
    pub password_hash: Seq<char>,
    pub salt: Seq<char>,
}

/// Whether a candidate password reproduces the stored digest of a
/// credential record.
pub open spec fn password_matches(c: CredentialV, password: Seq<char>) -> bool {
    c.password_hash == spec_hash(password, c.salt)
}

/// A struct that contains the username, password hash and salt of a user.
#[derive(Debug)]
pub struct Credentials {
    username: String,
    password_hash: String,
    salt: String,
}

impl View for Credentials {
    type V = CredentialV;

    closed spec fn view(&self) -> CredentialV {
        CredentialV {
            username: self.username@,
            password_hash: self.password_hash@,
            salt: self.salt@,
        }
    }
}

impl Credentials {
    /// Creates a new Credentials struct given a LoginInfo.
    ///
    /// Will generate a random salt and hash the password with the salt.
    pub fn new(login_info: &LoginInfo) -> (r: Self)
        ensures
            r@.username == login_info.username@,
            r@.password_hash == spec_hash(login_info.password@, r@.salt),
            r@.salt.len() == SALT_LENGTH,
            forall|i: int| 0 <= i < r@.salt.len() ==> is_alphanumeric_ascii(#[trigger] r@.salt[i]),
    {
        let salt = random_alphanumeric(SALT_LENGTH);
        Credentials::with_salt(login_info, salt)
    }

    /// Creates a Credentials struct from a LoginInfo and a caller-chosen
    /// salt, hashing the password with that salt.
    pub fn with_salt(login_info: &LoginInfo, salt: String) -> (r: Self)
        ensures
            r@.username == login_info.username@,
            r@.password_hash == spec_hash(login_info.password@, salt@),
            r@.salt == salt@,
    {
        let password_hash = create_hash(login_info.password.as_str(), salt.as_str());
        Credentials { username: login_info.username.clone(), password_hash, salt }
    }

    /// Reassembles a Credentials record from its stored fields.
    pub fn from_parts(username: &str, password_hash: &str, salt: &str) -> (r: Self)
        ensures
            r@.username == username@,
            r@.password_hash == password_hash@,
            r@.salt == salt@,
    {
        Credentials {
            username: username.to_owned(),
            password_hash: password_hash.to_owned(),
            salt: salt.to_owned(),
        }
    }

    /// Returns the username of the Credentials.
    pub fn username(&self) -> (r: &String)
        ensures
            r@ == self@.username,
    {
        &self.username
    }

    /// Returns the stored hex-encoded password digest.
    pub fn password_hash(&self) -> (r: &String)
        ensures
            r@ == self@.password_hash,
    {
        &self.password_hash
    }

    /// Returns the salt of the Credentials.
    pub fn salt(&self) -> (r: &String)
        ensures
            r@ == self@.salt,
    {
        &self.salt
    }

    /// Returns true if the given password matches the password of the
    /// Credentials. The digest comparison is constant-time with respect to
    /// the digest length.
    pub fn matches(&self, login_info: &LoginInfo) -> (r: bool)
        ensures
            r == password_matches(self@, login_info.password@),
    {
        let computed = create_hash(login_info.password.as_str(), self.salt.as_str());
        str_eq(self.password_hash.as_str(), computed.as_str())
    }
}

} // verus!
