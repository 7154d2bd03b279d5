//! The TTL key-value cache in front of the ranked store. Entries are kept
//! under string keys with an absolute expiry time and are never served past
//! it (lazy expiry: reads treat a stale entry as a miss). A whole key space
//! can be dropped in one prefix invalidation, and an auxiliary counter space
//! supports atomic increments. The cache's behaviour is specified against a
//! `Map` model of each key space.

use vstd::prelude::*;

use crate::entry::{clone_entries, LeaderboardEntry};
use crate::kv::{
    assoc, keys_unique, lemma_assoc_at, lemma_assoc_none, lemma_assoc_push, lemma_assoc_remove,
    lemma_unique_push, lemma_unique_remove,
};
use crate::text::{str_eq, str_has_prefix};

verus! {

/// One cached page: the payload as stored, and the absolute second at
/// which it expires.
pub struct CacheSlot {
    pub payload: Vec<LeaderboardEntry>,
    pub expires_at: u64,
}

/// The cache: an association list of pages keyed by strings, plus a second
/// list of integer counters. Keys are unique in each list (`wf`).
pub struct LeaderboardCache {
    pub entries: Vec<(String, CacheSlot)>,
    pub counters: Vec<(String, i64)>,
}

/// What a read of `k` at time `now` yields from the page model `m`: the
/// payload while the entry is unexpired, a miss otherwise.
pub open spec fn spec_live(
    m: Map<Seq<char>, (Seq<LeaderboardEntry>, u64)>,
    k: Seq<char>,
    now: u64,
) -> Option<Seq<LeaderboardEntry>> {
    if m.contains_key(k) && now < m[k].1 {
        Some(m[k].0)
    } else {
        None
    }
}

/// The page model after a prefix invalidation: every key under the prefix
/// is gone, every other binding is untouched.
pub open spec fn spec_clear_prefix(
    m: Map<Seq<char>, (Seq<LeaderboardEntry>, u64)>,
    p: Seq<char>,
) -> Map<Seq<char>, (Seq<LeaderboardEntry>, u64)> {
    Map::new(|k: Seq<char>| m.contains_key(k) && !p.is_prefix_of(k), |k: Seq<char>| m[k])
}

/// Locates `key` in an association list; yields the first match and the
/// fact that no earlier pair carries it.
fn find_key<V>(v: &Vec<(String, V)>, key: &str) -> (r: Option<usize>)
    ensures
        match r {
            Some(i) => i < v@.len() && v@[i as int].0@ == key@ && (forall|j: int|
                0 <= j < i ==> v@[j].0@ != key@),
            None => forall|j: int| 0 <= j < v@.len() ==> v@[j].0@ != key@,
        },
{
    let mut i: usize = 0;
    while i < v.len()
        invariant
            i <= v@.len(),
            forall|j: int| 0 <= j < i ==> v@[j].0@ != key@,
        decreases v@.len() - i,
    {
        if str_eq(v[i].0.as_str(), key) {
            return Some(i);
        }
        i += 1;
    }
    None
}

impl LeaderboardCache {
    /// Both key spaces hold each key at most once.
    pub open spec fn wf(self) -> bool {
        keys_unique(self.entries@) && keys_unique(self.counters@)
    }

    /// The page model: each cached key mapped to its payload and expiry.
    pub open spec fn pages(self) -> Map<Seq<char>, (Seq<LeaderboardEntry>, u64)> {
        Map::new(
            |k: Seq<char>| assoc(self.entries@, k) is Some,
            |k: Seq<char>|
                (
                    (assoc(self.entries@, k)->Some_0).payload@,
                    (assoc(self.entries@, k)->Some_0).expires_at,
                ),
        )
    }

    /// The counter model.
    pub open spec fn counts(self) -> Map<Seq<char>, i64> {
        Map::new(
            |k: Seq<char>| assoc(self.counters@, k) is Some,
            |k: Seq<char>| assoc(self.counters@, k)->Some_0,
        )
    }

    /// An empty cache.
    pub fn new() -> (c: Self)
        ensures
            c.wf(),
            c.pages() == Map::<Seq<char>, (Seq<LeaderboardEntry>, u64)>::empty(),
            c.counts() == Map::<Seq<char>, i64>::empty(),
    {
        let c = LeaderboardCache { entries: Vec::new(), counters: Vec::new() };
        proof {
            assert forall|k: Seq<char>| !(assoc(c.entries@, k) is Some) by {}
            assert forall|k: Seq<char>| !(assoc(c.counters@, k) is Some) by {}
            assert(c.pages() =~= Map::<Seq<char>, (Seq<LeaderboardEntry>, u64)>::empty());
            assert(c.counts() =~= Map::<Seq<char>, i64>::empty());
        }
        c
    }

    /// Read-through lookup: yields the cached payload exactly when `key`
    /// is present and unexpired at `now`; an expired entry is a miss.
    pub fn get_cached_leaderboard(&self, key: &str, now: u64) -> (r: Option<Vec<LeaderboardEntry>>)
        requires
            self.wf(),
        ensures
            r is Some <==> spec_live(self.pages(), key@, now) is Some,
            r matches Some(p) ==> Some(p@) == spec_live(self.pages(), key@, now),
    {
        match find_key(&self.entries, key) {
            Some(i) => {
                proof {
                    lemma_assoc_at(self.entries@, key@, i as int);
                }
                let slot = &self.entries[i].1;
                if now < slot.expires_at {
                    Some(clone_entries(&slot.payload))
                } else {
                    None
                }
            },
            None => {
                proof {
                    lemma_assoc_none(self.entries@, key@);
                }
                None
            },
        }
    }

    /// Stores `data` under `key` for `ttl` seconds from `now`, replacing
    /// any previous entry wholesale. Counters are untouched.
    pub fn cache_leaderboard(&mut self, key: &str, data: &Vec<LeaderboardEntry>, ttl: u64, now: u64)
        requires
            old(self).wf(),
            now + ttl <= u64::MAX,
        ensures
            final(self).wf(),
            final(self).pages() == old(self).pages().insert(
                key@,
                (data@, (now + ttl) as u64),
            ),
            final(self).counts() == old(self).counts(),
    {
        let ghost s0 = self.entries@;
        match find_key(&self.entries, key) {
            Some(i) => {
                proof {
                    lemma_unique_remove(s0, i as int);
                }
                self.entries.remove(i);
                proof {
                    let s1 = self.entries@;
                    assert forall|j: int| 0 <= j < s1.len() implies s1[j].0@ != key@ by {
                        let j0: int = if j < i {
                            j
                        } else {
                            j + 1
                        };
                        assert(s1[j] == s0[j0]);
                        if s0[j0].0@ == key@ {
                            if j0 < i {
                                assert(s0[j0].0@ != s0[i as int].0@);
                            } else {
                                assert(s0[i as int].0@ != s0[j0].0@);
                            }
                        }
                    }
                    assert forall|k: Seq<char>|
                        k != key@ implies assoc(s1, k) == assoc(s0, k) by {
                        lemma_assoc_remove(s0, i as int, k);
                    }
                }
            },
            None => {},
        }
        let ghost s1 = self.entries@;
        let key_string = String::from_str(key);
        let payload = clone_entries(data);
        let expires_at = now + ttl;
        self.entries.push((key_string, CacheSlot { payload, expires_at }));
        proof {
            let s2 = self.entries@;
            let pair = s2.last();
            assert(pair.0@ == key@);
            assert(s2 =~= s1.push((pair.0, pair.1)));
            lemma_unique_push(s1, pair.0, pair.1);
            assert(final(self).wf());
            assert forall|k: Seq<char>| #[trigger]
                assoc(s2, k) == (if k == key@ {
                    Some(pair.1)
                } else {
                    assoc(s1, k)
                }) by {
                lemma_assoc_push(s1, pair.0, pair.1, k);
            }
            assert(pair.1.payload@ == data@);
            assert(pair.1.expires_at == (now + ttl) as u64);
            assert(final(self).pages() =~= old(self).pages().insert(
                key@,
                (data@, (now + ttl) as u64),
            ));
            assert(final(self).counts() =~= old(self).counts());
        }
    }

    /// Drops every page whose key carries `prefix`, in one pass; keys
    /// outside the prefix and all counters are untouched. Removing
    /// nothing is a no-op, not an error.
    pub fn clear_pattern(&mut self, prefix: &str)
        requires
            old(self).wf(),
        ensures
            final(self).wf(),
            final(self).pages() == spec_clear_prefix(old(self).pages(), prefix@),
            final(self).counts() == old(self).counts(),
    {
        let ghost s0 = self.entries@;
        let mut i: usize = 0;
        while i < self.entries.len()
            invariant
                old(self).wf(),
                i <= self.entries@.len(),
                keys_unique(self.entries@),
                self.counters@ == old(self).counters@,
                forall|j: int| 0 <= j < i ==> !prefix@.is_prefix_of(#[trigger] self.entries@[j].0@),
                forall|k: Seq<char>|
                    !prefix@.is_prefix_of(k) ==> assoc(self.entries@, k) == assoc(s0, k),
            decreases self.entries@.len() - i,
        {
            if str_has_prefix(self.entries[i].0.as_str(), prefix) {
                let ghost cur = self.entries@;
                proof {
                    lemma_unique_remove(cur, i as int);
                }
                self.entries.remove(i);
                proof {
                    assert forall|k: Seq<char>|
                        !prefix@.is_prefix_of(k) implies assoc(self.entries@, k) == assoc(
                        s0,
                        k,
                    ) by {
                        lemma_assoc_remove(cur, i as int, k);
                        assert(k != cur[i as int].0@);
                    }
                }
            } else {
                i += 1;
            }
        }
        proof {
            let s1 = self.entries@;
            assert forall|k: Seq<char>|
                prefix@.is_prefix_of(k) implies !(assoc(s1, k) is Some) by {
                assert forall|j: int| 0 <= j < s1.len() implies s1[j].0@ != k by {
                    if s1[j].0@ == k {
                        assert(!prefix@.is_prefix_of(s1[j].0@));
                    }
                }
                lemma_assoc_none(s1, k);
            }
            assert(final(self).pages() =~= spec_clear_prefix(old(self).pages(), prefix@));
            assert(final(self).counts() =~= old(self).counts());
        }
    }

    /// Atomically bumps the counter under `key`, creating it at one; the
    /// count saturates at the largest value instead of wrapping. Pages are
    /// untouched.
    pub fn increment_counter(&mut self, key: &str) -> (r: i64)
        requires
            old(self).wf(),
        ensures
            final(self).wf(),
            r == (if old(self).counts().contains_key(key@) {
                if old(self).counts()[key@] == i64::MAX {
                    i64::MAX as int
                } else {
                    old(self).counts()[key@] + 1
                }
            } else {
                1
            }),
            final(self).counts() == old(self).counts().insert(key@, r),
            final(self).pages() == old(self).pages(),
    {
        let ghost s0 = self.counters@;
        let mut next: i64 = 1;
        match find_key(&self.counters, key) {
            Some(i) => {
                proof {
                    lemma_assoc_at(s0, key@, i as int);
                    lemma_unique_remove(s0, i as int);
                }
                let prev = self.counters[i].1;
                next = if prev == i64::MAX {
                    i64::MAX
                } else {
                    prev + 1
                };
                self.counters.remove(i);
                proof {
                    let s1 = self.counters@;
                    assert forall|j: int| 0 <= j < s1.len() implies s1[j].0@ != key@ by {
                        let j0: int = if j < i {
                            j
                        } else {
                            j + 1
                        };
                        assert(s1[j] == s0[j0]);
                        if s0[j0].0@ == key@ {
                            if j0 < i {
                                assert(s0[j0].0@ != s0[i as int].0@);
                            } else {
                                assert(s0[i as int].0@ != s0[j0].0@);
                            }
                        }
                    }
                    assert forall|k: Seq<char>|
                        k != key@ implies assoc(s1, k) == assoc(s0, k) by {
                        lemma_assoc_remove(s0, i as int, k);
                    }
                }
            },
            None => {
                proof {
                    lemma_assoc_none(s0, key@);
                }
            },
        }
        let ghost s1 = self.counters@;
        let key_string = String::from_str(key);
        self.counters.push((key_string, next));
        proof {
            let s2 = self.counters@;
            let pair = s2.last();
            assert(pair.0@ == key@);
            assert(s2 =~= s1.push((pair.0, pair.1)));
            lemma_unique_push(s1, pair.0, pair.1);
            assert forall|k: Seq<char>| #[trigger]
                assoc(s2, k) == (if k == key@ {
                    Some(pair.1)
                } else {
                    assoc(s1, k)
                }) by {
                lemma_assoc_push(s1, pair.0, pair.1, k);
            }
            assert(final(self).counts() =~= old(self).counts().insert(key@, next));
            assert(final(self).pages() =~= old(self).pages());
        }
        next
    }
}

/// Cache round trip: immediately after a store, and for as long as the
/// time-to-live has not elapsed, a read yields an equal payload; from the
/// moment it has elapsed, a read is a miss.
pub proof fn lemma_cache_round_trip(
    m: Map<Seq<char>, (Seq<LeaderboardEntry>, u64)>,
    k: Seq<char>,
    payload: Seq<LeaderboardEntry>,
    ttl: u64,
    now: u64,
    later: u64,
)
    requires
        now + ttl <= u64::MAX,
    ensures
        later < now + ttl ==> spec_live(m.insert(k, (payload, (now + ttl) as u64)), k, later)
            == Some(payload),
        later >= now + ttl ==> spec_live(m.insert(k, (payload, (now + ttl) as u64)), k, later)
            is None,
{
}

/// Prefix invalidation removes exactly the keys under the prefix: those
/// are misses afterwards, every other binding is untouched, and with no
/// matching key the cache is unchanged.
pub proof fn lemma_clear_prefix(m: Map<Seq<char>, (Seq<LeaderboardEntry>, u64)>, p: Seq<char>)
    ensures
        forall|k: Seq<char>|
            p.is_prefix_of(k) ==> !#[trigger] spec_clear_prefix(m, p).contains_key(k),
        forall|k: Seq<char>|
            !p.is_prefix_of(k) ==> #[trigger] spec_clear_prefix(m, p).contains_key(k)
                == m.contains_key(k),
        forall|k: Seq<char>|
            !p.is_prefix_of(k) && m.contains_key(k) ==> #[trigger] spec_clear_prefix(m, p)[k]
                == m[k],
        (forall|k: Seq<char>| m.contains_key(k) ==> !p.is_prefix_of(k)) ==> spec_clear_prefix(m, p)
            == m,
{
    if forall|k: Seq<char>| m.contains_key(k) ==> !p.is_prefix_of(k) {
        assert(spec_clear_prefix(m, p) =~= m);
    }
}

} // verus!
