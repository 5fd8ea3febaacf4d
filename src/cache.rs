use std::collections::HashMap;
use std::hash::Hash;
use vstd::prelude::*;
use vstd::std_specs::hash::obeys_key_model;

verus! {

broadcast use vstd::std_specs::hash::group_hash_axioms;

/// How long ago `inserted` was, seen at `now`; a clock that went back counts as no time.
pub open spec fn age(inserted: u64, now: u64) -> nat {
    if now >= inserted {
        (now - inserted) as nat
    } else {
        0
    }
}

/// An entry stored at `inserted` is stale at `now` when a TTL is set and its age exceeds it.
pub open spec fn is_stale(inserted: u64, now: u64, ttl: Option<u64>) -> bool {
    match ttl {
        Some(t) => age(inserted, now) > t as nat,
        None => false,
    }
}

/// Whether `cached` answers `key` at `now`: it holds an entry for the key that is not stale.
pub open spec fn is_hit<K, V>(cached: Map<K, (V, u64)>, ttl: Option<u64>, key: K, now: u64) -> bool {
    cached.contains_key(key) && !is_stale(cached[key].1, now, ttl)
}

/// A key-value store whose entries may expire.
///
/// Times are plain ticks (milliseconds in practice) handed in by the caller, so
/// the cache reads no clock itself. Stale entries are evicted when they are read.
pub struct Cache<K, V> {
    store: HashMap<K, (V, u64)>,
    ttl: Option<u64>,
}

impl<K: Eq + Hash, V: Clone> Cache<K, V> {
    /// The stored entries: each key with its value and the time it was stored.
    pub closed spec fn entries(&self) -> Map<K, (V, u64)> {
        self.store@
    }

    /// The configured time to live, if any.
    pub closed spec fn ttl(&self) -> Option<u64> {
        self.ttl
    }

    /// The keys hash and compare consistently, so the store behaves as a map.
    pub closed spec fn wf(&self) -> bool {
        obeys_key_model::<K>()
    }

    /// An empty cache whose entries never expire.
    pub fn new() -> (r: Self)
        requires
            obeys_key_model::<K>(),
        ensures
            r.wf(),
            r.entries() == Map::<K, (V, u64)>::empty(),
            r.ttl() == None::<u64>,
    {
        Cache { store: HashMap::new(), ttl: None }
    }

    /// The same cache, with entries expiring once older than `ttl`.
    pub fn with_ttl(self, ttl: u64) -> (r: Self)
        ensures
            r.wf() == self.wf(),
            r.entries() == self.entries(),
            r.ttl() == Some(ttl),
    {
        let mut c = self;
        c.ttl = Some(ttl);
        c
    }

    /// A copy of the live value stored for `key` at time `now`.
    ///
    /// A stale entry is removed and reported as absent.
    pub fn get(&mut self, key: &K, now: u64) -> (r: Option<V>)
        requires
            old(self).wf(),
        ensures
            final(self).wf(),
            final(self).ttl() == old(self).ttl(),
            !old(self).entries().contains_key(*key) ==> r is None && final(self).entries()
                == old(self).entries(),
            old(self).entries().contains_key(*key) && is_stale(
                old(self).entries()[*key].1,
                now,
                old(self).ttl(),
            ) ==> r is None && final(self).entries() == old(self).entries().remove(*key),
            old(self).entries().contains_key(*key) && !is_stale(
                old(self).entries()[*key].1,
                now,
                old(self).ttl(),
            ) ==> r is Some && cloned(old(self).entries()[*key].0, r->0) && final(self).entries()
                == old(self).entries(),
    {
        let stale = match self.store.get(key) {
            None => {
                return None;
            },
            Some(entry) => stale_at(entry.1, now, self.ttl),
        };
        if stale {
            self.store.remove(key);
            None
        } else {
            match self.store.get(key) {
                Some(entry) => Some(entry.0.clone()),
                None => None,
            }
        }
    }

    /// Stores `value` for `key` at time `now`, replacing any earlier entry.
    pub fn set(&mut self, key: K, value: V, now: u64)
        requires
            old(self).wf(),
        ensures
            final(self).wf(),
            final(self).ttl() == old(self).ttl(),
            final(self).entries() == old(self).entries().insert(key, (value, now)),
    {
        self.store.insert(key, (value, now));
    }

    /// Removes every entry.
    pub fn clear(&mut self)
        requires
            old(self).wf(),
        ensures
            final(self).wf(),
            final(self).ttl() == old(self).ttl(),
            final(self).entries() == Map::<K, (V, u64)>::empty(),
    {
        self.store.clear();
    }
}

/// Whether an entry stored at `inserted` is stale at `now`.
fn stale_at(inserted: u64, now: u64, ttl: Option<u64>) -> (r: bool)
    ensures
        r == is_stale(inserted, now, ttl),
{
    match ttl {
        Some(t) => now >= inserted && now - inserted > t,
        None => false,
    }
}

} // verus!
