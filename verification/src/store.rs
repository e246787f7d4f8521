//! The two durable stores of the engine.
//!
//! [`CredentialStore`] maps each username to at most one credential record;
//! its insert enforces that uniqueness itself, so a pre-check by a caller is
//! only ever an optimization. [`SessionStore`] maps each token to the
//! username and issue time of a session; its lookup applies the time-to-live
//! policy, so a record past its age is treated as absent whether or not the
//! sweep has physically purged it yet.

use crate::credentials::{CredentialV, Credentials};
use crate::errors::AuthError;
use crate::kv::{keys_unique, kv_map, lemma_kv_map_dom, lemma_kv_map_index, lemma_kv_map_push,
    lemma_kv_map_remove};
use crate::strutil::str_eq;
use vstd::prelude::*;
use vstd::string::*;

verus! {

/// Maximum age of a session token, in seconds: 30 days.
pub const SESSION_TTL_SECONDS: u64 = 2592000;

/// The mathematical content of one session record: the bound username and
/// the issue time, in seconds.
pub struct SessionV {
    pub username: Seq<char>,
    pub issued_at: u64,
}

/// Whether a session issued at `issued_at` is still within its
/// time-to-live at `now`.
pub open spec fn age_within_ttl(issued_at: u64, now: u64) -> bool {
    now - issued_at < SESSION_TTL_SECONDS
}

/// Whether a session record is still within its time-to-live at `now`.
pub open spec fn token_live(v: SessionV, now: u64) -> bool {
    age_within_ttl(v.issued_at, now)
}

/// The executable time-to-live check, for any caller that holds a record's
/// issue time as a plain value. A record issued in the future counts as
/// live.
pub fn is_within_ttl(issued_at: u64, now: u64) -> (r: bool)
    ensures
        r == age_within_ttl(issued_at, now),
{
    now < issued_at || now - issued_at < SESSION_TTL_SECONDS
}

/// Whether a token is valid at `now`: present in the session map and within
/// its time-to-live.
pub open spec fn token_valid(sessions: Map<Seq<char>, SessionV>, token: Seq<char>, now: u64) -> bool {
    sessions.contains_key(token) && token_live(sessions[token], now)
}

/// The pairs that a credential sequence denotes, keyed by username.
pub open spec fn cred_pairs(s: Seq<Credentials>) -> Seq<(Seq<char>, CredentialV)> {
    s.map_values(|c: Credentials| (c@.username, c@))
}

/// A durable mapping username -> credential record, with a hard uniqueness
/// guarantee: at most one record per username, enforced by [`CredentialStore::create`]
/// itself rather than by any caller-side pre-check.
pub struct CredentialStore {
    records: Vec<Credentials>,
}

impl View for CredentialStore {
    type V = Map<Seq<char>, CredentialV>;

    closed spec fn view(&self) -> Map<Seq<char>, CredentialV> {
        kv_map(cred_pairs(self.records@))
    }
}

impl CredentialStore {
    /// Internal well-formedness: usernames are pairwise distinct.
    pub closed spec fn wf(&self) -> bool {
        keys_unique(cred_pairs(self.records@))
    }

    /// An empty store.
    pub fn new() -> (r: Self)
        ensures
            r.wf(),
            r@ == Map::<Seq<char>, CredentialV>::empty(),
    {
        let r = CredentialStore { records: Vec::new() };
        proof {
            assert(cred_pairs(r.records@) =~= Seq::<(Seq<char>, CredentialV)>::empty());
        }
        r
    }

    /// Inserts a credential record, unless its username is already claimed.
    /// The membership test here is the authoritative uniqueness guarantee:
    /// the record is inserted exactly when the username is absent.
    pub fn create(&mut self, credentials: Credentials) -> (r: Result<(), AuthError>)
        requires
            old(self).wf(),
        ensures
            final(self).wf(),
            old(self)@.contains_key(credentials@.username) ==> {
                &&& r matches Err(AuthError::UsernameTaken(name)) && name@ == credentials@.username
                &&& final(self)@ == old(self)@
            },
            !old(self)@.contains_key(credentials@.username) ==> {
                &&& r matches Ok(u) && u == ()
                &&& final(self)@ == old(self)@.insert(credentials@.username, credentials@)
            },
    {
        if self.contains(credentials.username().as_str()) {
            return Err(AuthError::UsernameTaken(credentials.username().clone()));
        }
        proof {
            lemma_kv_map_dom(cred_pairs(self.records@), credentials@.username);
            lemma_kv_map_push(cred_pairs(self.records@), (credentials@.username, credentials@));
            assert(cred_pairs(self.records@.push(credentials)) =~= cred_pairs(
                self.records@,
            ).push((credentials@.username, credentials@)));
            assert forall|x: int, y: int|
                0 <= x < y < cred_pairs(self.records@.push(credentials)).len() implies cred_pairs(
                self.records@.push(credentials),
            )[x].0 != cred_pairs(self.records@.push(credentials))[y].0 by {
                if y == self.records@.len() {
                    assert(exists|i: int|
                        0 <= i < self.records@.len() && cred_pairs(self.records@)[i].0
                            == cred_pairs(self.records@)[x].0);
                }
            }
        }
        self.records.push(credentials);
        Ok(())
    }

    /// Looks a username up.
    pub fn find(&self, username: &str) -> (r: Option<&Credentials>)
        requires
            self.wf(),
        ensures
            match r {
                Some(c) => self@.contains_key(username@) && c@ == self@[username@] && c@.username
                    == username@,
                None => !self@.contains_key(username@),
            },
    {
        let n = self.records.len();
        for i in 0..n
            invariant
                n == self.records@.len(),
                self.wf(),
                forall|j: int| 0 <= j < i ==> cred_pairs(self.records@)[j].0 != username@,
        {
            let c = &self.records[i];
            if str_eq(c.username().as_str(), username) {
                proof {
                    lemma_kv_map_index(cred_pairs(self.records@), i as int);
                }
                return Some(c);
            }
        }
        proof {
            lemma_kv_map_dom(cred_pairs(self.records@), username@);
        }
        None
    }

    /// Pure existence probe: no credential material is returned.
    pub fn contains(&self, username: &str) -> (r: bool)
        requires
            self.wf(),
        ensures
            r == self@.contains_key(username@),
    {
        self.find(username).is_some()
    }
}

/// The pairs that a session-record sequence denotes, keyed by token.
pub open spec fn session_pairs(s: Seq<SessionRecord>) -> Seq<(Seq<char>, SessionV)> {
    s.map_values(|r: SessionRecord| (r.token@, r@))
}

/// One stored session: an opaque token, the username it is bound to, and
/// the time it was issued, in seconds.
pub struct SessionRecord {
    pub token: String,
    pub username: String,
    pub issued_at: u64,
}

impl View for SessionRecord {
    type V = SessionV;

    open spec fn view(&self) -> SessionV {
        SessionV { username: self.username@, issued_at: self.issued_at }
    }
}

/// A durable mapping token -> (username, issued-at). Lookup applies the
/// time-to-live policy; deletion is idempotent; insertion refuses to
/// overwrite an existing token.
pub struct SessionStore {
    records: Vec<SessionRecord>,
}

impl View for SessionStore {
    type V = Map<Seq<char>, SessionV>;

    closed spec fn view(&self) -> Map<Seq<char>, SessionV> {
        kv_map(session_pairs(self.records@))
    }
}

impl SessionStore {
    /// Internal well-formedness: tokens are pairwise distinct.
    pub closed spec fn wf(&self) -> bool {
        keys_unique(session_pairs(self.records@))
    }

    /// An empty store.
    pub fn new() -> (r: Self)
        ensures
            r.wf(),
            r@ == Map::<Seq<char>, SessionV>::empty(),
    {
        let r = SessionStore { records: Vec::new() };
        proof {
            assert(session_pairs(r.records@) =~= Seq::<(Seq<char>, SessionV)>::empty());
        }
        r
    }

    /// Stores a session under a token. A token that is already present is
    /// never silently overwritten: the attempt fails as a storage error.
    pub fn put(&mut self, token: String, username: String, issued_at: u64) -> (r: Result<
        (),
        AuthError,
    >)
        requires
            old(self).wf(),
        ensures
            final(self).wf(),
            old(self)@.contains_key(token@) ==> {
                &&& r matches Err(AuthError::DatabaseError(_))
                &&& final(self)@ == old(self)@
            },
            !old(self)@.contains_key(token@) ==> {
                &&& r matches Ok(u) && u == ()
                &&& final(self)@ == old(self)@.insert(
                    token@,
                    SessionV { username: username@, issued_at },
                )
            },
    {
        if self.contains(token.as_str()) {
            return Err(AuthError::DatabaseError(String::from_str("duplicate session token")));
        }
        let record = SessionRecord { token, username, issued_at };
        proof {
            lemma_kv_map_dom(session_pairs(self.records@), record.token@);
            lemma_kv_map_push(session_pairs(self.records@), (record.token@, record@));
            assert(session_pairs(self.records@.push(record)) =~= session_pairs(
                self.records@,
            ).push((record.token@, record@)));
            assert forall|x: int, y: int|
                0 <= x < y < session_pairs(self.records@.push(record)).len() implies session_pairs(
                self.records@.push(record),
            )[x].0 != session_pairs(self.records@.push(record))[y].0 by {
                if y == self.records@.len() {
                    assert(exists|i: int|
                        0 <= i < self.records@.len() && session_pairs(self.records@)[i].0
                            == session_pairs(self.records@)[x].0);
                }
            }
        }
        self.records.push(record);
        Ok(())
    }

    /// Whether a record for this token is physically present, live or not.
    fn contains(&self, token: &str) -> (r: bool)
        requires
            self.wf(),
        ensures
            r == self@.contains_key(token@),
    {
        let n = self.records.len();
        for i in 0..n
            invariant
                n == self.records@.len(),
                self.wf(),
                forall|j: int| 0 <= j < i ==> session_pairs(self.records@)[j].0 != token@,
        {
            let rec = &self.records[i];
            if str_eq(rec.token.as_str(), token) {
                proof {
                    lemma_kv_map_index(session_pairs(self.records@), i as int);
                }
                return true;
            }
        }
        proof {
            lemma_kv_map_dom(session_pairs(self.records@), token@);
        }
        false
    }

    /// Looks a token up and applies the time-to-live check against `now`: a
    /// record whose age exceeds the policy is treated as absent, whether or
    /// not it has been physically purged.
    pub fn get(&self, token: &str, now: u64) -> (r: Option<&SessionRecord>)
        requires
            self.wf(),
        ensures
            match r {
                Some(rec) => token_valid(self@, token@, now) && rec@ == self@[token@]
                    && rec.token@ == token@,
                None => !token_valid(self@, token@, now),
            },
    {
        let n = self.records.len();
        for i in 0..n
            invariant
                n == self.records@.len(),
                self.wf(),
                forall|j: int| 0 <= j < i ==> session_pairs(self.records@)[j].0 != token@,
        {
            let rec = &self.records[i];
            if str_eq(rec.token.as_str(), token) {
                proof {
                    lemma_kv_map_index(session_pairs(self.records@), i as int);
                }
                if is_within_ttl(rec.issued_at, now) {
                    return Some(rec);
                } else {
                    return None;
                }
            }
        }
        proof {
            lemma_kv_map_dom(session_pairs(self.records@), token@);
        }
        None
    }

    /// Deletes the record of a token. Idempotent: deleting an absent token
    /// changes nothing and is not an error.
    pub fn delete(&mut self, token: &str)
        requires
            old(self).wf(),
        ensures
            final(self).wf(),
            final(self)@ == old(self)@.remove(token@),
    {
        let n = self.records.len();
        for i in 0..n
            invariant
                n == self.records@.len(),
                self.wf(),
                self@ == old(self)@,
                self.records@ == old(self).records@,
                forall|j: int| 0 <= j < i ==> session_pairs(self.records@)[j].0 != token@,
        {
            let hit = str_eq(self.records[i].token.as_str(), token);
            if hit {
                proof {
                    lemma_kv_map_index(session_pairs(self.records@), i as int);
                    lemma_kv_map_remove(session_pairs(self.records@), i as int);
                    lemma_session_pairs_remove(self.records@, i as int);
                    lemma_keys_unique_remove(session_pairs(self.records@), i as int);
                }
                self.records.remove(i);
                return ;
            }
        }
        proof {
            lemma_kv_map_dom(session_pairs(self.records@), token@);
            assert(self@ =~= self@.remove(token@));
        }
    }

    /// Physically purges every record whose age exceeds the time-to-live.
    /// Purging changes which tokens are valid at no time: a purged record
    /// was already treated as absent by [`SessionStore::get`].
    pub fn reap(&mut self, now: u64)
        requires
            old(self).wf(),
        ensures
            final(self).wf(),
            forall|t: Seq<char>| #[trigger]
                final(self)@.contains_key(t) <==> (old(self)@.contains_key(t) && token_live(
                    old(self)@[t],
                    now,
                )),
            forall|t: Seq<char>| #[trigger]
                final(self)@.contains_key(t) ==> final(self)@[t] == old(self)@[t],
    {
        let mut i: usize = 0;
        while i < self.records.len()
            invariant
                self.wf(),
                i <= self.records@.len(),
                forall|j: int| 0 <= j < i ==> token_live(self.records@[j]@, now),
                forall|t: Seq<char>| #[trigger]
                    self@.contains_key(t) ==> old(self)@.contains_key(t) && self@[t] == old(
                        self,
                    )@[t],
                forall|t: Seq<char>| #[trigger]
                    old(self)@.contains_key(t) ==> (self@.contains_key(t) || !token_live(
                        old(self)@[t],
                        now,
                    )),
            decreases self.records@.len() - i,
        {
            let live = is_within_ttl(self.records[i].issued_at, now);
            if live {
                i = i + 1;
            } else {
                let ghost prev = *self;
                let ghost tok = session_pairs(self.records@)[i as int].0;
                proof {
                    lemma_kv_map_index(session_pairs(self.records@), i as int);
                    lemma_kv_map_remove(session_pairs(self.records@), i as int);
                    lemma_session_pairs_remove(self.records@, i as int);
                    lemma_keys_unique_remove(session_pairs(self.records@), i as int);
                }
                self.records.remove(i);
                proof {
                    assert(self.records@ == prev.records@.remove(i as int));
                    assert(self@ == prev@.remove(tok));
                    assert(prev@[tok] == prev.records@[i as int]@);
                    assert(!token_live(prev@[tok], now));
                    assert forall|t: Seq<char>| #[trigger]
                        self@.contains_key(t) implies old(self)@.contains_key(t) && self@[t]
                        == old(self)@[t] by {
                        assert(prev@.contains_key(t) && self@[t] == prev@[t]);
                    }
                    assert forall|t: Seq<char>| #[trigger]
                        old(self)@.contains_key(t) implies (self@.contains_key(t) || !token_live(
                        old(self)@[t],
                        now,
                    )) by {
                        if prev@.contains_key(t) && t != tok {
                            assert(self@.contains_key(t));
                        }
                    }
                    assert forall|j: int| 0 <= j < i implies token_live(
                        #[trigger] self.records@[j]@,
                        now,
                    ) by {
                        assert(self.records@[j] == prev.records@[j]);
                    }
                }
            }
        }
        proof {
            assert forall|t: Seq<char>| #[trigger] self@.contains_key(t) implies token_live(
                self@[t],
                now,
            ) by {
                lemma_kv_map_dom(session_pairs(self.records@), t);
                let j = choose|j: int|
                    0 <= j < self.records@.len() && session_pairs(self.records@)[j].0 == t;
                lemma_kv_map_index(session_pairs(self.records@), j);
            }
        }
    }
}

/// Removing a record commutes with forming the key–value pairs.
proof fn lemma_session_pairs_remove(s: Seq<SessionRecord>, i: int)
    requires
        0 <= i < s.len(),
    ensures
        session_pairs(s.remove(i)) == session_pairs(s).remove(i),
{
    s.remove_ensures(i);
    session_pairs(s).remove_ensures(i);
    assert(session_pairs(s.remove(i)) =~= session_pairs(s).remove(i));
}

/// Unique keys stay unique when a pair is removed.
proof fn lemma_keys_unique_remove<K, V>(s: Seq<(K, V)>, i: int)
    requires
        keys_unique(s),
        0 <= i < s.len(),
    ensures
        keys_unique(s.remove(i)),
{
    s.remove_ensures(i);
    assert forall|x: int, y: int|
        0 <= x < y < s.remove(i).len() implies s.remove(i)[x].0 != s.remove(i)[y].0 by {
        if x < i {
            if y < i {
                assert(s.remove(i)[x] == s[x] && s.remove(i)[y] == s[y]);
            } else {
                assert(s.remove(i)[x] == s[x] && s.remove(i)[y] == s[y + 1]);
            }
        } else {
            assert(s.remove(i)[x] == s[x + 1] && s.remove(i)[y] == s[y + 1]);
        }
    }
}

} // verus!
