//! The time-expiring store of fetched values.
//!
//! Reading takes `&self` and writing `&mut self`: any number of readers, or
//! one writer, and never both.

use vstd::prelude::*;
use std::rc::Rc;
use crate::clock::{age, age_at, Clock};
use crate::key::{key_views, matches_any, matches_any_prefix};
use crate::keymap::KeyMap;

verus! {

/// A stored value with the time it was stored at and the time it may live.
pub struct CacheEntry<V> {
    pub created_at: u64,
    pub lifetime: u64,
    pub value: Rc<V>,
}

impl<V> CacheEntry<V> {
    /// Whether the entry is no older than `max_age` at `now`.
    pub open spec fn fresh_at(self, now: u64, max_age: u64) -> bool {
        age(self.created_at, now) <= max_age
    }

    /// Whether the entry has not outlived its own lifetime at `now`.
    pub open spec fn live_at(self, now: u64) -> bool {
        self.fresh_at(now, self.lifetime)
    }

    /// Computes [`CacheEntry::fresh_at`].
    pub fn is_fresh(&self, now: u64, max_age: u64) -> (fresh: bool)
        ensures
            fresh == self.fresh_at(now, max_age),
    {
        age_at(self.created_at, now) <= max_age
    }

    /// Computes [`CacheEntry::live_at`].
    pub fn is_live(&self, now: u64) -> (live: bool)
        ensures
            live == self.live_at(now),
    {
        self.is_fresh(now, self.lifetime)
    }
}

/// What a lookup of `key` at time `now` finds: the stored value, unless there is
/// none or it is older than `max_age`.
pub open spec fn lookup<V>(
    entries: Map<Seq<u64>, CacheEntry<V>>,
    key: Seq<u64>,
    max_age: u64,
    now: u64,
) -> Option<Rc<V>> {
    if entries.contains_key(key) && entries[key].fresh_at(now, max_age) {
        Some(entries[key].value)
    } else {
        None
    }
}

/// The entries after `value` was stored under `key` at time `now`.
pub open spec fn stored<V>(
    entries: Map<Seq<u64>, CacheEntry<V>>,
    key: Seq<u64>,
    value: Rc<V>,
    lifetime: u64,
    now: u64,
) -> Map<Seq<u64>, CacheEntry<V>> {
    entries.insert(key, CacheEntry { created_at: now, lifetime, value })
}

/// The entries whose key falls under none of `prefixes`.
pub open spec fn evicted<V>(entries: Map<Seq<u64>, CacheEntry<V>>, prefixes: Seq<Seq<u64>>) -> Map<
    Seq<u64>,
    CacheEntry<V>,
> {
    entries.remove_keys(Set::new(|key: Seq<u64>| matches_any(prefixes, key)))
}

/// The entries that are still within their lifetime at `now`.
pub open spec fn swept<V>(entries: Map<Seq<u64>, CacheEntry<V>>, now: u64) -> Map<
    Seq<u64>,
    CacheEntry<V>,
> {
    Map::new(
        |key: Seq<u64>| entries.contains_key(key) && entries[key].live_at(now),
        |key: Seq<u64>| entries[key],
    )
}

/// A value that was just stored is found by a lookup with the same time to
/// live exactly as long as no more than that time has passed since.
pub proof fn lemma_stored_then_found<V>(
    entries: Map<Seq<u64>, CacheEntry<V>>,
    key: Seq<u64>,
    value: Rc<V>,
    ttl: u64,
    stored_at: u64,
    now: u64,
)
    ensures
        age(stored_at, now) <= ttl ==> lookup(stored(entries, key, value, ttl, stored_at), key, ttl, now)
            == Some(value),
        age(stored_at, now) > ttl ==> lookup(stored(entries, key, value, ttl, stored_at), key, ttl, now)
            == None::<Rc<V>>,
        lookup(stored(entries, key, value, ttl, stored_at), key, ttl, stored_at) == Some(value),
{
}

/// Eviction is a set difference: an entry stays, unchanged, exactly if its
/// key falls under none of the prefixes.
pub proof fn lemma_evicted_is_difference<V>(
    entries: Map<Seq<u64>, CacheEntry<V>>,
    prefixes: Seq<Seq<u64>>,
    key: Seq<u64>,
)
    ensures
        evicted(entries, prefixes).contains_key(key) <==> entries.contains_key(key) && !matches_any(
            prefixes,
            key,
        ),
        evicted(entries, prefixes).contains_key(key) ==> evicted(entries, prefixes)[key]
            == entries[key],
{
}

/// After an eviction no lookup finds anything under an evicted prefix,
/// whatever the moment and the age limit.
pub proof fn lemma_evicted_not_found<V>(
    entries: Map<Seq<u64>, CacheEntry<V>>,
    prefixes: Seq<Seq<u64>>,
    key: Seq<u64>,
    max_age: u64,
    now: u64,
)
    requires
        matches_any(prefixes, key),
    ensures
        lookup(evicted(entries, prefixes), key, max_age, now) == None::<Rc<V>>,
{
}

/// Sweeping a second time, at the same moment or later, leaves what one sweep
/// at the later moment leaves; at the same moment it changes nothing more.
pub proof fn lemma_sweep_twice<V>(entries: Map<Seq<u64>, CacheEntry<V>>, first: u64, second: u64)
    requires
        first <= second,
    ensures
        swept(swept(entries, first), second) == swept(entries, second),
        swept(swept(entries, first), first) == swept(entries, first),
{
    assert(swept(swept(entries, first), second) =~= swept(entries, second));
    assert(swept(swept(entries, first), first) =~= swept(entries, first));
}

/// The store: at most one entry for each key.
pub struct QueryCache<V> {
    inner: KeyMap<CacheEntry<V>>,
    clock: Clock,
}

impl<V> View for QueryCache<V> {
    type V = Map<Seq<u64>, CacheEntry<V>>;

    closed spec fn view(&self) -> Map<Seq<u64>, CacheEntry<V>> {
        self.inner@
    }
}

impl<V> Default for QueryCache<V> {
    fn default() -> (cache: Self)
        ensures
            cache@ == Map::<Seq<u64>, CacheEntry<V>>::empty(),
    {
        QueryCache::new()
    }
}

impl<V> QueryCache<V> {
    /// An empty store, with a clock that starts now.
    pub fn new() -> (cache: Self)
        ensures
            cache@ == Map::<Seq<u64>, CacheEntry<V>>::empty(),
    {
        QueryCache { inner: KeyMap::new(), clock: Clock::new() }
    }

    /// The present moment on the store's clock.
    pub fn now(&self) -> (nanos: u64) {
        self.clock.now()
    }

    /// Whether an entry is stored under `id`, expired or not.
    pub fn contains_key(&self, id: &[u64]) -> (found: bool)
        ensures
            found == self@.contains_key(id@),
    {
        self.inner.contains_key(id)
    }

    /// Looks `id` up as of the moment `now`: the stored value, unless it is
    /// older than `max_age`. The entry stays where it is either way.
    pub fn get_at(&self, id: &[u64], max_age: u64, now: u64) -> (found: Option<Rc<V>>)
        ensures
            found == lookup(self@, id@, max_age, now),
    {
        match self.inner.get(id) {
            Some(entry) => {
                if entry.is_fresh(now, max_age) {
                    Some(entry.value.clone())
                } else {
                    None
                }
            },
            None => None,
        }
    }

    /// Looks `id` up as of the present moment.
    pub fn get(&self, id: &[u64], max_age: u64) -> (found: Option<Rc<V>>)
        ensures
            exists|now: u64| found == #[trigger] lookup(self@, id@, max_age, now),
    {
        let now = self.clock.now();
        self.get_at(id, max_age, now)
    }

    /// Stores `value` under `id` as of the moment `now`, in place of whatever
    /// was there, and hands the value back.
    pub fn insert_at(&mut self, id: Vec<u64>, value: Rc<V>, lifetime: u64, now: u64) -> (kept: Rc<V>)
        ensures
            final(self)@ == stored(old(self)@, id@, value, lifetime, now),
            kept == value,
    {
        let entry = CacheEntry { created_at: now, lifetime, value: value.clone() };
        self.inner.insert(id, entry);
        value
    }

    /// Stores `value` under `id` as of the present moment.
    pub fn insert(&mut self, id: Vec<u64>, value: Rc<V>, lifetime: u64) -> (kept: Rc<V>)
        ensures
            exists|now: u64| final(self)@ == #[trigger] stored(old(self)@, id@, value, lifetime, now),
            kept == value,
    {
        let now = self.clock.now();
        self.insert_at(id, value, lifetime, now)
    }

    /// Removes every entry whose key has a member of `keys` as a prefix, and
    /// no other.
    pub fn invalidate_keys(&mut self, keys: &[&[u64]])
        ensures
            final(self)@ == evicted(old(self)@, key_views(keys@)),
    {
        let ghost before = self@;
        let ghost prefixes = key_views(keys@);
        let mut i: usize = 0;
        while i < self.inner.len()
            invariant
                prefixes == key_views(keys@),
                i <= self.inner.spec_len(),
                forall|k: Seq<u64>| #[trigger]
                    self.inner@.contains_key(k) ==> before.contains_key(k) && self.inner@[k]
                        == before[k],
                forall|k: Seq<u64>|
                    before.contains_key(k) && !matches_any(prefixes, k)
                        ==> #[trigger] self.inner@.contains_key(k),
                forall|j: int| 0 <= j < i ==> !matches_any(prefixes, #[trigger] self.inner.spec_key(j)),
            decreases self.inner.spec_len() - i,
        {
            if matches_any_prefix(self.inner.key_at(i).as_slice(), keys) {
                self.inner.remove_at(i);
            } else {
                i += 1;
            }
        }
        proof {
            assert forall|k: Seq<u64>| self.inner@.contains_key(k) implies !matches_any(
                prefixes,
                k,
            ) by {
                self.inner.lemma_position_of(k);
            }
            assert(self@ =~= evicted(before, prefixes));
        }
    }

    /// Removes every entry that has outlived its lifetime at the moment `now`,
    /// and no other.
    pub fn collect_garbage_at(&mut self, now: u64)
        ensures
            final(self)@ == swept(old(self)@, now),
    {
        let ghost before = self@;
        let mut i: usize = 0;
        while i < self.inner.len()
            invariant
                i <= self.inner.spec_len(),
                forall|k: Seq<u64>| #[trigger]
                    self.inner@.contains_key(k) ==> before.contains_key(k) && self.inner@[k]
                        == before[k],
                forall|k: Seq<u64>|
                    before.contains_key(k) && before[k].live_at(now)
                        ==> #[trigger] self.inner@.contains_key(k),
                forall|j: int| 0 <= j < i ==> (#[trigger] self.inner.spec_value(j)).live_at(now),
            decreases self.inner.spec_len() - i,
        {
            if self.inner.value_at(i).is_live(now) {
                i += 1;
            } else {
                self.inner.remove_at(i);
            }
        }
        proof {
            assert forall|k: Seq<u64>| self.inner@.contains_key(k) implies self.inner@[k].live_at(
                now,
            ) by {
                self.inner.lemma_position_of(k);
            }
            assert(self@ =~= swept(before, now));
        }
    }

    /// Removes every entry that has outlived its lifetime at the present
    /// moment.
    pub fn collect_garbage(&mut self)
        ensures
            exists|now: u64| final(self)@ == #[trigger] swept(old(self)@, now),
    {
        let now = self.clock.now();
        self.collect_garbage_at(now)
    }
}

} // verus!
