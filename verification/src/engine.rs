//! The authentication engine: register, login, authenticate, authorize,
//! logout and existence probes, orchestrating the password hasher and the
//! two stores.
//!
//! Every operation takes the current time as an argument; the engine itself
//! never reads a clock. Registration succeeds on credential and token
//! persistence alone: initializing a profile with the separate profile
//! service is left to the caller as a best-effort side effect that does not
//! gate the outcome.

use crate::credentials::{password_matches, CredentialV, Credentials, SALT_LENGTH};
use crate::errors::AuthError;
use crate::hashing::spec_hash;
use crate::random::{is_alphanumeric_ascii, random_alphanumeric};
use crate::store::{token_valid, CredentialStore, SessionStore, SessionV};
use crate::strutil::str_eq;
use crate::types::{AuthenticateResult, LoginInfo, SessionToken, Username, TOKEN_LENGTH};
use vstd::prelude::*;
use vstd::string::*;

verus! {

/// What registration stores for a username: the username itself, the digest
/// of the password under the record's own salt, and that salt — a fresh
/// 32-character alphanumeric string.
pub open spec fn registered_credential(c: CredentialV, username: Seq<char>, password: Seq<char>) -> bool {
    &&& c.username == username
    &&& c.password_hash == spec_hash(password, c.salt)
    &&& c.salt.len() == SALT_LENGTH
    &&& forall|i: int| 0 <= i < c.salt.len() ==> is_alphanumeric_ascii(#[trigger] c.salt[i])
}

/// The authentication engine over its two stores.
pub struct Authenticator {
    credentials: CredentialStore,
    sessions: SessionStore,
}

impl Authenticator {
    /// Both stores are well-formed.
    pub closed spec fn wf(&self) -> bool {
        self.credentials.wf() && self.sessions.wf()
    }

    /// The credential store's contents: username -> credential record.
    pub closed spec fn credentials_map(&self) -> Map<Seq<char>, CredentialV> {
        self.credentials@
    }

    /// The session store's contents: token -> (username, issued-at).
    pub closed spec fn sessions_map(&self) -> Map<Seq<char>, SessionV> {
        self.sessions@
    }

    /// An engine over empty stores.
    pub fn new() -> (r: Self)
        ensures
            r.wf(),
            r.credentials_map() == Map::<Seq<char>, CredentialV>::empty(),
            r.sessions_map() == Map::<Seq<char>, SessionV>::empty(),
    {
        Authenticator { credentials: CredentialStore::new(), sessions: SessionStore::new() }
    }

    /// Registers a new user with the given username and password, drawing a
    /// fresh salt and a fresh token, and returns the session token.
    ///
    /// A username that is already claimed is rejected with `UsernameTaken`
    /// and nothing changes. Otherwise the credential is stored; if the
    /// freshly drawn token happens to collide with a stored one, token
    /// issuance fails as a storage error and the credential remains — an
    /// accepted partial-success state, from which the user can still log in.
    /// When no stored token could collide with the draw — in particular on
    /// an empty session store — success is guaranteed.
    pub fn register(&mut self, info: LoginInfo, now: u64) -> (r: Result<SessionToken, AuthError>)
        requires
            old(self).wf(),
        ensures
            final(self).wf(),
            old(self).credentials_map().contains_key(info.username@) ==> {
                &&& r matches Err(AuthError::UsernameTaken(name)) && name@ == info.username@
                &&& final(self).credentials_map() == old(self).credentials_map()
                &&& final(self).sessions_map() == old(self).sessions_map()
            },
            !old(self).credentials_map().contains_key(info.username@) ==> {
                &&& final(self).credentials_map().contains_key(info.username@)
                &&& registered_credential(
                    final(self).credentials_map()[info.username@],
                    info.username@,
                    info.password@,
                )
                &&& final(self).credentials_map() == old(self).credentials_map().insert(
                    info.username@,
                    final(self).credentials_map()[info.username@],
                )
                &&& match r {
                    Ok(t) => {
                        &&& t@.username == info.username@
                        &&& t@.token.len() == TOKEN_LENGTH
                        &&& !old(self).sessions_map().contains_key(t@.token)
                        &&& final(self).sessions_map() == old(self).sessions_map().insert(
                            t@.token,
                            SessionV { username: info.username@, issued_at: now },
                        )
                    },
                    Err(e) => {
                        &&& e matches AuthError::DatabaseError(_)
                        &&& final(self).sessions_map() == old(self).sessions_map()
                    },
                }
                &&& (forall|t: Seq<char>|
                    t.len() == TOKEN_LENGTH ==> !(#[trigger] old(
                        self,
                    ).sessions_map().contains_key(t))) ==> r matches Ok(_)
            },
    {
        let salt = random_alphanumeric(SALT_LENGTH);
        let token = random_alphanumeric(TOKEN_LENGTH);
        self.register_with(info, salt, token, now)
    }

    /// Registers a new user from caller-chosen salt and token material.
    /// Behaves as [`Authenticator::register`], with the salt and token
    /// pinned: the stored digest is the hash of the password under `salt`,
    /// and a fresh `token` is issued exactly when it is not already in the
    /// session store.
    pub fn register_with(
        &mut self,
        info: LoginInfo,
        salt: String,
        token: String,
        now: u64,
    ) -> (r: Result<SessionToken, AuthError>)
        requires
            old(self).wf(),
        ensures
            final(self).wf(),
            old(self).credentials_map().contains_key(info.username@) ==> {
                &&& r matches Err(AuthError::UsernameTaken(name)) && name@ == info.username@
                &&& final(self).credentials_map() == old(self).credentials_map()
                &&& final(self).sessions_map() == old(self).sessions_map()
            },
            !old(self).credentials_map().contains_key(info.username@) ==> {
                &&& final(self).credentials_map() == old(self).credentials_map().insert(
                    info.username@,
                    CredentialV {
                        username: info.username@,
                        password_hash: spec_hash(info.password@, salt@),
                        salt: salt@,
                    },
                )
                &&& old(self).sessions_map().contains_key(token@) ==> {
                    &&& r matches Err(AuthError::DatabaseError(_))
                    &&& final(self).sessions_map() == old(self).sessions_map()
                }
                &&& !old(self).sessions_map().contains_key(token@) ==> {
                    &&& r matches Ok(t) && t@.username == info.username@ && t@.token == token@
                    &&& final(self).sessions_map() == old(self).sessions_map().insert(
                        token@,
                        SessionV { username: info.username@, issued_at: now },
                    )
                }
            },
    {
        let credentials = Credentials::with_salt(&info, salt);
        match self.credentials.create(credentials) {
            Err(e) => Err(e),
            Ok(()) => self.create_and_store_session_token(info.username, token, now),
        }
    }

    /// Creates a session token from the given material, stores it and
    /// returns it. A collision with a stored token is a storage error, never
    /// a silent overwrite.
    fn create_and_store_session_token(
        &mut self,
        username: String,
        token: String,
        now: u64,
    ) -> (r: Result<SessionToken, AuthError>)
        requires
            old(self).wf(),
        ensures
            final(self).wf(),
            final(self).credentials_map() == old(self).credentials_map(),
            old(self).sessions_map().contains_key(token@) ==> {
                &&& r matches Err(AuthError::DatabaseError(_))
                &&& final(self).sessions_map() == old(self).sessions_map()
            },
            !old(self).sessions_map().contains_key(token@) ==> {
                &&& r matches Ok(t) && t@.username == username@ && t@.token == token@
                &&& final(self).sessions_map() == old(self).sessions_map().insert(
                    token@,
                    SessionV { username: username@, issued_at: now },
                )
            },
    {
        let session_token = SessionToken::from_parts(username.as_str(), token.as_str());
        match self.sessions.put(token, username, now) {
            Ok(()) => Ok(session_token),
            Err(e) => Err(e),
        }
    }

    /// Logs in a user with the given username and password, drawing a fresh
    /// token.
    ///
    /// An unknown username is rejected with `UserNotFound`; a password whose
    /// digest under the stored salt differs from the stored digest is
    /// rejected with `InvalidPassword`; otherwise a new session token is
    /// issued, independent of any prior tokens of that user, which remain.
    /// Issuance can fail only when the freshly drawn token collides with a
    /// stored one: when no stored token could collide with the draw,
    /// success is guaranteed.
    pub fn login(&mut self, info: LoginInfo, now: u64) -> (r: Result<SessionToken, AuthError>)
        requires
            old(self).wf(),
        ensures
            final(self).wf(),
            final(self).credentials_map() == old(self).credentials_map(),
            !old(self).credentials_map().contains_key(info.username@) ==> {
                &&& r matches Err(AuthError::UserNotFound(name)) && name@ == info.username@
                &&& final(self).sessions_map() == old(self).sessions_map()
            },
            old(self).credentials_map().contains_key(info.username@) && !password_matches(
                old(self).credentials_map()[info.username@],
                info.password@,
            ) ==> {
                &&& r matches Err(AuthError::InvalidPassword)
                &&& final(self).sessions_map() == old(self).sessions_map()
            },
            old(self).credentials_map().contains_key(info.username@) && password_matches(
                old(self).credentials_map()[info.username@],
                info.password@,
            ) ==> match r {
                Ok(t) => {
                    &&& t@.username == info.username@
                    &&& t@.token.len() == TOKEN_LENGTH
                    &&& !old(self).sessions_map().contains_key(t@.token)
                    &&& final(self).sessions_map() == old(self).sessions_map().insert(
                        t@.token,
                        SessionV { username: info.username@, issued_at: now },
                    )
                },
                Err(e) => {
                    &&& e matches AuthError::DatabaseError(_)
                    &&& final(self).sessions_map() == old(self).sessions_map()
                },
            },
            old(self).credentials_map().contains_key(info.username@) && password_matches(
                old(self).credentials_map()[info.username@],
                info.password@,
            ) && (forall|t: Seq<char>|
                t.len() == TOKEN_LENGTH ==> !(#[trigger] old(self).sessions_map().contains_key(
                    t,
                ))) ==> r matches Ok(_),
    {
        let token = random_alphanumeric(TOKEN_LENGTH);
        self.login_with_token(info, token, now)
    }

    /// Logs a user in, issuing the caller-chosen token. Behaves as
    /// [`Authenticator::login`], with the token pinned: on matching
    /// credentials a fresh `token` is issued exactly when it is not already
    /// in the session store.
    pub fn login_with_token(&mut self, info: LoginInfo, token: String, now: u64) -> (r: Result<
        SessionToken,
        AuthError,
    >)
        requires
            old(self).wf(),
        ensures
            final(self).wf(),
            final(self).credentials_map() == old(self).credentials_map(),
            !old(self).credentials_map().contains_key(info.username@) ==> {
                &&& r matches Err(AuthError::UserNotFound(name)) && name@ == info.username@
                &&& final(self).sessions_map() == old(self).sessions_map()
            },
            old(self).credentials_map().contains_key(info.username@) && !password_matches(
                old(self).credentials_map()[info.username@],
                info.password@,
            ) ==> {
                &&& r matches Err(AuthError::InvalidPassword)
                &&& final(self).sessions_map() == old(self).sessions_map()
            },
            old(self).credentials_map().contains_key(info.username@) && password_matches(
                old(self).credentials_map()[info.username@],
                info.password@,
            ) ==> {
                &&& old(self).sessions_map().contains_key(token@) ==> {
                    &&& r matches Err(AuthError::DatabaseError(_))
                    &&& final(self).sessions_map() == old(self).sessions_map()
                }
                &&& !old(self).sessions_map().contains_key(token@) ==> {
                    &&& r matches Ok(t) && t@.username == info.username@ && t@.token == token@
                    &&& final(self).sessions_map() == old(self).sessions_map().insert(
                        token@,
                        SessionV { username: info.username@, issued_at: now },
                    )
                }
            },
    {
        let matched: bool;
        match self.credentials.find(info.username.as_str()) {
            None => {
                return Err(AuthError::UserNotFound(info.username));
            },
            Some(credentials) => {
                matched = credentials.matches(&info);
            },
        }
        if !matched {
            return Err(AuthError::InvalidPassword);
        }
        self.create_and_store_session_token(info.username, token, now)
    }

    /// Authenticates a session token at `now`: a token that is absent,
    /// expired or revoked fails with `AuthenticationError`; a valid one
    /// resolves to the username it is bound to.
    pub fn authenticate(&self, session_token: &str, now: u64) -> (r: Result<
        AuthenticateResult,
        AuthError,
    >)
        requires
            self.wf(),
        ensures
            token_valid(self.sessions_map(), session_token@, now) ==> (r matches Ok(a)
                && a.username@ == self.sessions_map()[session_token@].username),
            !token_valid(self.sessions_map(), session_token@, now) ==> r matches Err(
                AuthError::AuthenticationError,
            ),
    {
        match self.sessions.get(session_token, now) {
            Some(record) => Ok(AuthenticateResult::from(record.username.clone())),
            None => Err(AuthError::AuthenticationError),
        }
    }

    /// Authorizes a session token for a claimed principal: an invalid token
    /// fails with `AuthenticationError`; a valid token bound to a different
    /// username fails with `AuthorizationError`; otherwise the username is
    /// confirmed.
    pub fn authorize(&self, session_token: &str, claimed_username: &str, now: u64) -> (r: Result<
        Username,
        AuthError,
    >)
        requires
            self.wf(),
        ensures
            !token_valid(self.sessions_map(), session_token@, now) ==> r matches Err(
                AuthError::AuthenticationError,
            ),
            token_valid(self.sessions_map(), session_token@, now)
                && self.sessions_map()[session_token@].username != claimed_username@
                ==> r matches Err(AuthError::AuthorizationError),
            token_valid(self.sessions_map(), session_token@, now)
                && self.sessions_map()[session_token@].username == claimed_username@
                ==> (r matches Ok(u) && u.username@ == claimed_username@),
    {
        match self.authenticate(session_token, now) {
            Err(e) => Err(e),
            Ok(result) => {
                if str_eq(result.username.as_str(), claimed_username) {
                    Ok(Username::from(result.username))
                } else {
                    Err(AuthError::AuthorizationError)
                }
            },
        }
    }

    /// Logs out a session token: its record is deleted. Always succeeds;
    /// logging out an absent or already logged-out token changes nothing.
    pub fn logout(&mut self, session_token: &str) -> (r: Result<(), AuthError>)
        requires
            old(self).wf(),
        ensures
            final(self).wf(),
            r matches Ok(u) && u == (),
            final(self).credentials_map() == old(self).credentials_map(),
            final(self).sessions_map() == old(self).sessions_map().remove(session_token@),
    {
        self.sessions.delete(session_token);
        Ok(())
    }

    /// Checks whether a user with a given username exists. No credential
    /// material is returned.
    pub fn user_exists(&self, username: &str) -> (r: Result<bool, AuthError>)
        requires
            self.wf(),
        ensures
            r matches Ok(b) && b == self.credentials_map().contains_key(username@),
    {
        Ok(self.credentials.contains(username))
    }

    /// Physically purges expired session records. Which tokens are valid at
    /// `now` does not change: a purged record was already rejected by the
    /// time-to-live check.
    pub fn reap_sessions(&mut self, now: u64)
        requires
            old(self).wf(),
        ensures
            final(self).wf(),
            final(self).credentials_map() == old(self).credentials_map(),
            forall|t: Seq<char>| #[trigger]
                final(self).sessions_map().contains_key(t) <==> token_valid(
                    old(self).sessions_map(),
                    t,
                    now,
                ),
            forall|t: Seq<char>| #[trigger]
                final(self).sessions_map().contains_key(t) ==> final(self).sessions_map()[t] == old(
                    self,
                ).sessions_map()[t],
            forall|t: Seq<char>|
                token_valid(final(self).sessions_map(), t, now) == token_valid(
                    old(self).sessions_map(),
                    t,
                    now,
                ),
    {
        self.sessions.reap(now);
    }
}

} // verus!
