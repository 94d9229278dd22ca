//! Reference model of the session cache: the ephemeral token → identity
//! store with absolute expiry and sliding renewal.
//!
//! The deployed service keeps these entries in a remote key-value cache
//! reached over the network; this model gives the same contract —
//! `set` and atomic `get_and_refresh` — over an in-process table, so
//! the protocol handler built on it is verified against exactly the
//! behaviour the remote cache is trusted for. A session that has
//! passed its expiry is treated as absent; it is never returned and a
//! later `set` simply overwrites it (lazy destruction).

use vstd::prelude::*;

use crate::protocol::TTL_SECONDS;

verus! {

/// One session: the identity a token stands for and the absolute time
/// at which the mapping lapses unless refreshed.
#[derive(Clone, Copy, Debug, PartialEq, Eq, Structural)]
pub struct Session {
    pub user_id: u64,
    pub expires_at: u64,
}

struct CacheEntry {
    token: String,
    session: Session,
}

/// The token → session table with sliding-TTL renewal.
pub struct SessionCache {
    entries: Vec<CacheEntry>,
}

spec fn entry_map(s: Seq<CacheEntry>) -> Map<Seq<char>, Session>
    decreases s.len(),
{
    if s.len() == 0 {
        Map::empty()
    } else {
        entry_map(s.drop_last()).insert(s.last().token@, s.last().session)
    }
}

spec fn distinct_tokens(s: Seq<CacheEntry>) -> bool {
    forall|i: int, j: int| 0 <= i < j < s.len() ==> s[i].token@ != s[j].token@
}

impl View for SessionCache {
    type V = Map<Seq<char>, Session>;

    closed spec fn view(&self) -> Map<Seq<char>, Session> {
        entry_map(self.entries@)
    }
}

/// The cache after `token` is stored or refreshed for `user_id` at
/// time `now`: the mapping is created or overwritten with expiry
/// `now + TTL_SECONDS`, and every other mapping is untouched.
pub open spec fn stored(
    m: Map<Seq<char>, Session>,
    token: Seq<char>,
    user_id: u64,
    now: u64,
) -> Map<Seq<char>, Session> {
    m.insert(token, Session { user_id, expires_at: (now + TTL_SECONDS) as u64 })
}

/// The identity a token resolves to at time `now`: the stored user id
/// when the token is mapped and its session has not yet expired, and
/// nothing otherwise. A session is live strictly before its expiry.
pub open spec fn live_user(m: Map<Seq<char>, Session>, token: Seq<char>, now: u64) -> Option<
    u64,
> {
    if m.contains_key(token) && now < m[token].expires_at {
        Some(m[token].user_id)
    } else {
        None
    }
}

proof fn lemma_entry_map_index(s: Seq<CacheEntry>, i: int)
    requires
        distinct_tokens(s),
        0 <= i < s.len(),
    ensures
        entry_map(s).contains_key(s[i].token@),
        entry_map(s)[s[i].token@] == s[i].session,
    decreases s.len(),
{
    if i < s.len() - 1 {
        assert(distinct_tokens(s.drop_last())) by {
            assert(forall|m: int, n: int|
                0 <= m < n < s.len() - 1 ==> s.drop_last()[m] == s[m] && s.drop_last()[n] == s[n]);
        }
        lemma_entry_map_index(s.drop_last(), i);
        assert(s.drop_last()[i] == s[i]);
        assert(s.last().token@ != s[i].token@);
    }
}

proof fn lemma_entry_map_absent(s: Seq<CacheEntry>, t: Seq<char>)
    requires
        forall|i: int| 0 <= i < s.len() ==> s[i].token@ != t,
    ensures
        !entry_map(s).contains_key(t),
    decreases s.len(),
{
    if s.len() > 0 {
        assert(forall|i: int| 0 <= i < s.len() - 1 ==> s.drop_last()[i] == s[i]);
        lemma_entry_map_absent(s.drop_last(), t);
    }
}

proof fn lemma_entry_map_update(s: Seq<CacheEntry>, i: int, e: CacheEntry)
    requires
        distinct_tokens(s),
        0 <= i < s.len(),
        e.token@ == s[i].token@,
    ensures
        entry_map(s.update(i, e)) =~= entry_map(s).insert(e.token@, e.session),
    decreases s.len(),
{
    let s2 = s.update(i, e);
    if i == s.len() - 1 {
        assert(s2.drop_last() =~= s.drop_last());
        assert(s2.last() == e);
    } else {
        assert(s2.drop_last() =~= s.drop_last().update(i, e));
        assert(s2.last() == s.last());
        assert(distinct_tokens(s.drop_last())) by {
            assert(forall|m: int, n: int|
                0 <= m < n < s.len() - 1 ==> s.drop_last()[m] == s[m] && s.drop_last()[n] == s[n]);
        }
        assert(s.drop_last()[i] == s[i]);
        lemma_entry_map_update(s.drop_last(), i, e);
        assert(s.last().token@ != e.token@);
    }
}

impl SessionCache {
    /// Entries name pairwise distinct tokens, so each token maps to
    /// exactly one session.
    pub closed spec fn wf(&self) -> bool {
        distinct_tokens(self.entries@)
    }

    /// An empty cache: no token resolves to anything.
    pub fn new() -> (r: Self)
        ensures
            r.wf(),
            r@ == Map::<Seq<char>, Session>::empty(),
    {
        SessionCache { entries: Vec::new() }
    }

    /// Creates or overwrites the mapping for `token`, with expiry
    /// `now + TTL_SECONDS`. Every other mapping is untouched.
    pub fn set(&mut self, token: String, user_id: u64, now: u64)
        requires
            old(self).wf(),
            now + TTL_SECONDS <= u64::MAX,
        ensures
            final(self).wf(),
            final(self)@ == stored(old(self)@, token@, user_id, now),
    {
        let session = Session { user_id, expires_at: now + TTL_SECONDS };
        let ghost s0 = old(self).entries@;
        let n = self.entries.len();
        let mut i: usize = 0;
        while i < n
            invariant
                n == s0.len(),
                i <= n,
                s0 == old(self).entries@,
                self.entries@ == s0,
                distinct_tokens(s0),
                session == (Session { user_id, expires_at: (now + TTL_SECONDS) as u64 }),
                forall|j: int| 0 <= j < i ==> s0[j].token@ != token@,
            decreases n - i,
        {
            if self.entries[i].token == token {
                let updated = CacheEntry { token, session };
                proof {
                    lemma_entry_map_update(s0, i as int, updated);
                    assert(forall|m: int, n2: int|
                        0 <= m < n2 < s0.len() ==> s0.update(i as int, updated)[m].token@
                            == s0[m].token@ && s0.update(i as int, updated)[n2].token@
                            == s0[n2].token@);
                }
                self.entries[i] = updated;
                return;
            }
            i += 1;
        }
        let added = CacheEntry { token, session };
        proof {
            assert(s0.push(added).drop_last() =~= s0);
            assert(forall|m: int, n2: int|
                0 <= m < n2 < s0.len() ==> s0.push(added)[m].token@ == s0[m].token@ && s0.push(
                    added,
                )[n2].token@ == s0[n2].token@);
            assert(forall|m: int| 0 <= m < s0.len() ==> s0.push(added)[m].token@ != added.token@);
        }
        self.entries.push(added);
    }

    /// The atomic read-then-extend: when `token` maps to a session that
    /// is still live at `now`, returns its user id and in the same step
    /// pushes the expiry out to `now + TTL_SECONDS`; when the token is
    /// unmapped or its session has expired, returns nothing and leaves
    /// the cache as it was.
    pub fn get_and_refresh(&mut self, token: &String, now: u64) -> (r: Option<u64>)
        requires
            old(self).wf(),
            now + TTL_SECONDS <= u64::MAX,
        ensures
            final(self).wf(),
            r == live_user(old(self)@, token@, now),
            match r {
                Some(uid) => final(self)@ == stored(old(self)@, token@, uid, now),
                None => final(self)@ == old(self)@,
            },
    {
        let ghost s0 = old(self).entries@;
        let n = self.entries.len();
        let mut i: usize = 0;
        while i < n
            invariant
                n == s0.len(),
                i <= n,
                s0 == old(self).entries@,
                self.entries@ == s0,
                distinct_tokens(s0),
                now + TTL_SECONDS <= u64::MAX,
                forall|j: int| 0 <= j < i ==> s0[j].token@ != token@,
            decreases n - i,
        {
            if self.entries[i].token == *token {
                proof {
                    lemma_entry_map_index(s0, i as int);
                }
                let found = self.entries[i].session;
                if now < found.expires_at {
                    let refreshed = CacheEntry {
                        token: token.clone(),
                        session: Session {
                            user_id: found.user_id,
                            expires_at: now + TTL_SECONDS,
                        },
                    };
                    proof {
                        lemma_entry_map_update(s0, i as int, refreshed);
                        assert(forall|m: int, n2: int|
                            0 <= m < n2 < s0.len() ==> s0.update(i as int, refreshed)[m].token@
                                == s0[m].token@ && s0.update(i as int, refreshed)[n2].token@
                                == s0[n2].token@);
                    }
                    self.entries[i] = refreshed;
                    return Some(found.user_id);
                } else {
                    return None;
                }
            }
            i += 1;
        }
        proof {
            lemma_entry_map_absent(s0, token@);
        }
        None
    }
}

} // verus!
