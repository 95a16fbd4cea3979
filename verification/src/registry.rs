//! The registry of the queries that somebody listens to: for each key the
//! container of its data, the container of its status, and its fetcher.
//!
//! The containers belong to the consumers; the registry only looks at them
//! through weak references, so a registration ends by itself when the last
//! consumer lets go. The fetcher is owned by the registry and has to be reaped.

use vstd::prelude::*;
use std::rc::Rc;
use std::rc::Weak;
use fnv::FnvBuildHasher;
use weak_table::WeakValueHashMap;
use vstd::slice::slice_to_vec;
use crate::key::{key_views, matches_any, matches_any_prefix, owned_views, same_key};
use crate::keymap::KeyMap;

verus! {

/// A `weak_table::WeakValueHashMap` from keys to weakly held containers.
///
/// An entry is there for as long as somebody else holds a strong reference to
/// its container, so what the map holds can change without a call on the map.
/// For that reason no operation on it promises anything of its result.
#[verifier::external_body]
#[verifier::reject_recursive_types(T)]
struct WeakMap<T> {
    inner: WeakValueHashMap<Vec<u64>, Weak<T>, FnvBuildHasher>,
}

impl<T> WeakMap<T> {
    /// `WeakValueHashMap::with_hasher`: a map without entries.
    #[verifier::external_body]
    fn new() -> (map: Self) {
        WeakMap { inner: WeakValueHashMap::with_hasher(FnvBuildHasher::default()) }
    }

    /// `WeakValueHashMap::get`: a strong reference to the container under
    /// `key`, if one was put there and is still alive. Nothing is claimed of
    /// the result.
    #[verifier::external_body]
    fn get(&self, key: &[u64]) -> (found: Option<Rc<T>>) {
        self.inner.get(key)
    }

    /// `WeakValueHashMap::insert`: puts a weak reference to `value` under
    /// `key`. Nothing is claimed of the map afterwards.
    #[verifier::external_body]
    fn insert(&mut self, key: Vec<u64>, value: Rc<T>) {
        self.inner.insert(key, value);
    }

    /// `WeakValueHashMap::keys`: the keys whose container is alive, in no
    /// particular order. Nothing is claimed of the result.
    #[verifier::external_body]
    fn keys(&self) -> (keys: Vec<Vec<u64>>) {
        self.inner.keys().cloned().collect()
    }
}

/// A live query: strong references to its two containers, and its fetcher.
pub struct Registration<D, S, F> {
    pub data: Rc<D>,
    pub status: Rc<S>,
    pub fetcher: Rc<F>,
}

/// What three lookups amount to: a registration if all three found
/// something, and nothing otherwise.
pub open spec fn assembled<D, S, F>(
    data: Option<Rc<D>>,
    status: Option<Rc<S>>,
    fetcher: Option<Rc<F>>,
) -> Option<Registration<D, S, F>> {
    match (data, status, fetcher) {
        (Some(data), Some(status), Some(fetcher)) => Some(Registration { data, status, fetcher }),
        _ => None,
    }
}

/// Computes [`assembled`].
pub fn assemble<D, S, F>(
    data: Option<Rc<D>>,
    status: Option<Rc<S>>,
    fetcher: Option<Rc<F>>,
) -> (found: Option<Registration<D, S, F>>)
    ensures
        found == assembled(data, status, fetcher),
{
    match (data, status, fetcher) {
        (Some(data), Some(status), Some(fetcher)) => Some(Registration { data, status, fetcher }),
        _ => None,
    }
}

/// Whether `key` is a member of `keys`.
pub open spec fn listed(keys: Seq<Vec<u64>>, key: Seq<u64>) -> bool {
    exists|i: int| 0 <= i < keys.len() && (#[trigger] keys[i])@ == key
}

/// Tells whether `key` is a member of `keys`.
pub fn is_listed(keys: &Vec<Vec<u64>>, key: &[u64]) -> (found: bool)
    ensures
        found == listed(keys@, key@),
{
    let mut i: usize = 0;
    while i < keys.len()
        invariant
            i <= keys.len(),
            forall|j: int| 0 <= j < i ==> (#[trigger] keys@[j])@ != key@,
        decreases keys.len() - i,
    {
        if same_key(keys[i].as_slice(), key) {
            return true;
        }
        i += 1;
    }
    false
}

/// The members of `keys` that fall under some member of `prefixes`, in their
/// order.
pub fn select_matching(keys: &Vec<Vec<u64>>, prefixes: &[&[u64]]) -> (matching: Vec<Vec<u64>>)
    ensures
        owned_views(matching@) == owned_views(keys@).filter(
            |key: Seq<u64>| matches_any(key_views(prefixes@), key),
        ),
        forall|i: int|
            0 <= i < matching@.len() ==> matches_any(key_views(prefixes@), (#[trigger] matching@[i])@),
{
    let ghost wanted = |key: Seq<u64>| matches_any(key_views(prefixes@), key);
    let mut matching: Vec<Vec<u64>> = Vec::new();
    let mut i: usize = 0;
    proof {
        reveal(Seq::filter);
        assert(owned_views(keys@).take(0) =~= Seq::<Seq<u64>>::empty());
        assert(owned_views(matching@) =~= Seq::<Seq<u64>>::empty());
    }
    while i < keys.len()
        invariant
            wanted == (|key: Seq<u64>| matches_any(key_views(prefixes@), key)),
            i <= keys.len(),
            owned_views(matching@) == owned_views(keys@).take(i as int).filter(wanted),
        decreases keys.len() - i,
    {
        let ghost sofar = owned_views(keys@).take(i as int);
        let ghost next = owned_views(keys@).take(i + 1);
        proof {
            reveal(Seq::filter);
            assert(next.drop_last() =~= sofar);
            assert(next.last() == keys@[i as int]@);
        }
        if matches_any_prefix(keys[i].as_slice(), prefixes) {
            let key = slice_to_vec(keys[i].as_slice());
            proof {
                assert(owned_views(matching@.push(key)) =~= owned_views(matching@).push(key@));
            }
            matching.push(key);
        }
        i += 1;
    }
    proof {
        assert(owned_views(keys@).take(keys@.len() as int) =~= owned_views(keys@));
        assert forall|i: int| 0 <= i < matching@.len() implies matches_any(
            key_views(prefixes@),
            (#[trigger] matching@[i])@,
        ) by {
            owned_views(keys@).lemma_filter_pred(wanted, i);
            assert(owned_views(matching@)[i] == matching@[i]@);
        }
    }
    matching
}

/// The queries that are being listened to.
#[verifier::reject_recursive_types(D)]
#[verifier::reject_recursive_types(S)]
pub struct QueryRegistry<D, S, F> {
    data: WeakMap<D>,
    status: WeakMap<S>,
    fetchers: KeyMap<Rc<F>>,
}

impl<D, S, F> QueryRegistry<D, S, F> {
    /// The fetchers that the registry owns, by key.
    pub closed spec fn fetchers(&self) -> Map<Seq<u64>, Rc<F>> {
        self.fetchers@
    }

    /// A registry without queries.
    pub fn new() -> (registry: Self)
        ensures
            registry.fetchers() == Map::<Seq<u64>, Rc<F>>::empty(),
    {
        QueryRegistry { data: WeakMap::new(), status: WeakMap::new(), fetchers: KeyMap::new() }
    }

    /// The fetcher registered under `key`.
    pub fn fetcher(&self, key: &[u64]) -> (found: Option<Rc<F>>)
        ensures
            match found {
                Some(fetcher) => self.fetchers().contains_key(key@) && fetcher == self.fetchers()[key@],
                None => !self.fetchers().contains_key(key@),
            },
    {
        match self.fetchers.get(key) {
            Some(fetcher) => Some(fetcher.clone()),
            None => None,
        }
    }

    /// The data container registered under `key`, if a consumer still holds
    /// it.
    pub(crate) fn data(&self, key: &[u64]) -> (found: Option<Rc<D>>) {
        self.data.get(key)
    }

    /// The live query under `key`: its two containers and its fetcher, or
    /// nothing if any of the three is missing. Whether a container is still
    /// there depends on its consumers; the fetcher is the registered one.
    pub fn find(&self, key: &[u64]) -> (found: Option<Registration<D, S, F>>)
        ensures
            !self.fetchers().contains_key(key@) ==> found is None,
            found matches Some(query) ==> query.fetcher == self.fetchers()[key@],
    {
        let data = self.data.get(key);
        let status = self.status.get(key);
        let fetcher = self.fetcher(key);
        assemble(data, status, fetcher)
    }

    /// Registers a query under `key`: weak references to its containers, and
    /// its fetcher in place of any that was registered before.
    pub fn register(&mut self, key: Vec<u64>, data: Rc<D>, status: Rc<S>, fetcher: Rc<F>)
        ensures
            final(self).fetchers() == old(self).fetchers().insert(key@, fetcher),
    {
        self.data.insert(slice_to_vec(key.as_slice()), data);
        self.status.insert(slice_to_vec(key.as_slice()), status);
        self.fetchers.insert(key, fetcher);
    }

    /// The keys whose data container a consumer still holds, in no
    /// particular order.
    pub(crate) fn registered_keys(&self) -> (keys: Vec<Vec<u64>>) {
        self.data.keys()
    }

    /// Drops every fetcher whose key is not a member of `live`, and no
    /// other.
    pub fn retain_fetchers(&mut self, live: &Vec<Vec<u64>>)
        ensures
            final(self).fetchers() == old(self).fetchers().restrict(
                Set::new(|key: Seq<u64>| listed(live@, key)),
            ),
    {
        let ghost before = self.fetchers@;
        let mut i: usize = 0;
        while i < self.fetchers.len()
            invariant
                i <= self.fetchers.spec_len(),
                forall|k: Seq<u64>| #[trigger]
                    self.fetchers@.contains_key(k) ==> before.contains_key(k) && self.fetchers@[k]
                        == before[k],
                forall|k: Seq<u64>|
                    before.contains_key(k) && listed(live@, k)
                        ==> #[trigger] self.fetchers@.contains_key(k),
                forall|j: int| 0 <= j < i ==> listed(live@, #[trigger] self.fetchers.spec_key(j)),
            decreases self.fetchers.spec_len() - i,
        {
            if is_listed(live, self.fetchers.key_at(i).as_slice()) {
                i += 1;
            } else {
                self.fetchers.remove_at(i);
            }
        }
        proof {
            assert forall|k: Seq<u64>| self.fetchers@.contains_key(k) implies listed(live@, k) by {
                self.fetchers.lemma_position_of(k);
            }
            assert(self.fetchers@ =~= before.restrict(Set::new(|key: Seq<u64>| listed(live@, key))));
        }
    }

    /// Drops the fetchers of the queries that nobody listens to any more:
    /// those whose status container is gone. No fetcher is added or changed.
    pub fn reap_orphaned_fetchers(&mut self)
        ensures
            final(self).fetchers().submap_of(old(self).fetchers()),
    {
        let live = self.status.keys();
        self.retain_fetchers(&live);
    }
}

} // verus!
