//! The guarantees that hold across several operations of the engine, stated
//! over the same maps and spec functions that the operations' contracts use.

use crate::credentials::{password_matches, CredentialV};
use crate::hashing::spec_hash;
use crate::store::{token_valid, SessionV, SESSION_TTL_SECONDS};
use vstd::prelude::*;

verus! {

/// Registering an unclaimed username issues a session token that is valid
/// right away and bound to that username: after the insert that a
/// successful registration performs, the token resolves to the registering
/// username.
pub proof fn lemma_register_issues_valid_token(
    sessions: Map<Seq<char>, SessionV>,
    token: Seq<char>,
    username: Seq<char>,
    now: u64,
)
    requires
        !sessions.contains_key(token),
    ensures
        ({
            let s2 = sessions.insert(token, SessionV { username, issued_at: now });
            token_valid(s2, token, now) && s2[token].username == username
        }),
{
}

/// A username can be claimed only once: once a registration has inserted a
/// credential record for it, the username is in the credential map, and by
/// the contract of registration every later attempt — whatever password and
/// salt it hashed — is refused with the username-taken error and changes
/// nothing.
pub proof fn lemma_username_claimed_once(
    credentials: Map<Seq<char>, CredentialV>,
    username: Seq<char>,
    record: CredentialV,
)
    ensures
        credentials.insert(username, record).contains_key(username),
{
}

/// Logging in right after registering with the same password succeeds: the
/// credential that registration stores matches the password it was
/// registered with, because the digest check recomputes the same
/// deterministic hash under the stored salt.
pub proof fn lemma_registered_password_matches(
    username: Seq<char>,
    password: Seq<char>,
    salt: Seq<char>,
)
    ensures
        password_matches(
            CredentialV { username, password_hash: spec_hash(password, salt), salt },
            password,
        ),
{
}

/// A token issued at some time authenticates at every instant within the
/// time-to-live of its issue — in particular right away — and resolves to
/// the username it was issued for.
pub proof fn lemma_issued_token_authenticates(
    sessions: Map<Seq<char>, SessionV>,
    token: Seq<char>,
    username: Seq<char>,
    issued_at: u64,
    later: u64,
)
    requires
        later - issued_at < SESSION_TTL_SECONDS,
    ensures
        ({
            let s2 = sessions.insert(token, SessionV { username, issued_at });
            token_valid(s2, token, later) && s2[token].username == username
        }),
{
}

/// Issuing a session token that was not stored before leaves every other
/// token exactly as valid as it was: tokens issued by earlier registrations
/// and logins remain live until they individually expire or are logged out,
/// so several sessions of one user coexist.
pub proof fn lemma_issue_preserves_other_tokens(
    sessions: Map<Seq<char>, SessionV>,
    token: Seq<char>,
    username: Seq<char>,
    issued_at: u64,
    other: Seq<char>,
    now: u64,
)
    requires
        other != token,
    ensures
        token_valid(
            sessions.insert(token, SessionV { username, issued_at }),
            other,
            now,
        ) == token_valid(sessions, other, now),
{
}

/// Logging a token out invalidates it at every time, logging it out twice
/// is the same as logging it out once, and no other token's validity is
/// affected.
pub proof fn lemma_logout_invalidates(sessions: Map<Seq<char>, SessionV>, token: Seq<char>, now: u64)
    ensures
        !token_valid(sessions.remove(token), token, now),
        sessions.remove(token).remove(token) == sessions.remove(token),
        forall|other: Seq<char>|
            other != token ==> token_valid(sessions.remove(token), other, now) == token_valid(
                sessions,
                other,
                now,
            ),
{
    assert(sessions.remove(token).remove(token) =~= sessions.remove(token));
}

/// A token whose age exceeds the time-to-live is invalid, whether or not it
/// was ever logged out or physically purged.
pub proof fn lemma_expired_token_rejected(
    sessions: Map<Seq<char>, SessionV>,
    token: Seq<char>,
    now: u64,
)
    requires
        sessions.contains_key(token),
        now - sessions[token].issued_at >= SESSION_TTL_SECONDS,
    ensures
        !token_valid(sessions, token, now),
{
}

/// The password digest is deterministic: it depends on the password and the
/// salt alone, so two records hashed from the same pair carry the same
/// digest whatever usernames they belong to.
pub proof fn lemma_hash_deterministic(
    first_username: Seq<char>,
    second_username: Seq<char>,
    password: Seq<char>,
    salt: Seq<char>,
)
    ensures
        (CredentialV {
            username: first_username,
            password_hash: spec_hash(password, salt),
            salt,
        }).password_hash == (CredentialV {
            username: second_username,
            password_hash: spec_hash(password, salt),
            salt,
        }).password_hash,
{
}

} // verus!
