//! The client: the cache, the registry and the default policy in one place.
//!
//! The client never touches a container. Where a container has to be
//! written, it hands the container back together with what to write.

use vstd::prelude::*;
use vstd::slice::slice_to_vec;
use std::rc::Rc;
use crate::as_keys::AsKeys;
use crate::cache::{evicted, lookup, stored, swept, CacheEntry, QueryCache};
use crate::key::{as_slices, matches_any, owned_views};
use crate::options::{ClientOptions, ExponentialBackoff, DEFAULT_CACHE_EXPIRATION, DEFAULT_RETRIES};
use crate::registry::{select_matching, QueryRegistry, Registration};

verus! {

/// The cache, the registry of live queries, and the policy that a query
/// falls back to.
#[verifier::reject_recursive_types(D)]
#[verifier::reject_recursive_types(S)]
pub struct QueryClient<V, D, S, F, R> {
    pub(crate) default_options: ClientOptions<R>,
    pub(crate) cache: QueryCache<V>,
    pub(crate) registry: QueryRegistry<D, S, F>,
}

/// A live query together with its key.
pub struct LiveQuery<D, S, F> {
    pub key: Vec<u64>,
    pub query: Registration<D, S, F>,
}

/// A value that was put into the cache by hand, and the data container that
/// has to show it, if a consumer holds one for the key.
pub struct DataUpdate<V, D> {
    pub value: Rc<V>,
    pub container: Option<Rc<D>>,
}

impl<V, D, S, F> Default for QueryClient<V, D, S, F, ExponentialBackoff> {
    fn default() -> (client: Self)
        ensures
            client.options().cache_expiration == DEFAULT_CACHE_EXPIRATION,
            client.options().retries == DEFAULT_RETRIES,
            client.entries() == Map::<Seq<u64>, CacheEntry<V>>::empty(),
            client.fetchers() == Map::<Seq<u64>, Rc<F>>::empty(),
    {
        let options: ClientOptions<ExponentialBackoff> = ClientOptions::default();
        QueryClient::new(options)
    }
}

impl<V, D, S, F, R> QueryClient<V, D, S, F, R> {
    /// The default policy.
    pub open(crate) spec fn options(&self) -> ClientOptions<R> {
        self.default_options
    }

    /// What the cache holds.
    pub open(crate) spec fn entries(&self) -> Map<Seq<u64>, CacheEntry<V>> {
        self.cache@
    }

    /// The fetchers of the registered queries.
    pub open(crate) spec fn fetchers(&self) -> Map<Seq<u64>, Rc<F>> {
        self.registry.fetchers()
    }

    /// A client with an empty cache and no queries.
    pub fn new(default_options: ClientOptions<R>) -> (client: Self)
        ensures
            client.options() == default_options,
            client.entries() == Map::<Seq<u64>, CacheEntry<V>>::empty(),
            client.fetchers() == Map::<Seq<u64>, Rc<F>>::empty(),
    {
        QueryClient { default_options, cache: QueryCache::new(), registry: QueryRegistry::new() }
    }

    /// The present moment on the cache's clock.
    pub fn now(&self) -> (nanos: u64) {
        self.cache.now()
    }

    /// The default policy.
    pub fn default_options(&self) -> (options: &ClientOptions<R>)
        ensures
            *options == self.options(),
    {
        &self.default_options
    }

    /// Invalidates every query whose key starts with one of `queries`.
    ///
    /// First the cache loses every entry under one of the prefixes. Then the
    /// live queries under one of the prefixes are handed back: each of them
    /// has to be run again, and will miss the cache when it is.
    pub fn invalidate_queries(&mut self, queries: Vec<Vec<u64>>) -> (stale: Vec<LiveQuery<D, S, F>>)
        ensures
            final(self).entries() == evicted(old(self).entries(), owned_views(queries@)),
            final(self).fetchers() == old(self).fetchers(),
            final(self).options() == old(self).options(),
            forall|i: int|
                0 <= i < stale@.len() ==> {
                    &&& matches_any(owned_views(queries@), (#[trigger] stale@[i]).key@)
                    &&& final(self).fetchers().contains_key(stale@[i].key@)
                    &&& stale@[i].query.fetcher == final(self).fetchers()[stale@[i].key@]
                },
    {
        let slices = as_slices(&queries);
        self.cache.invalidate_keys(slices.as_slice());
        let registered = self.registry.registered_keys();
        let matching = select_matching(&registered, slices.as_slice());
        let mut stale: Vec<LiveQuery<D, S, F>> = Vec::new();
        let mut i: usize = 0;
        while i < matching.len()
            invariant
                i <= matching.len(),
                forall|j: int|
                    0 <= j < matching@.len() ==> matches_any(
                        owned_views(queries@),
                        (#[trigger] matching@[j])@,
                    ),
                forall|j: int|
                    0 <= j < stale@.len() ==> {
                        &&& matches_any(owned_views(queries@), (#[trigger] stale@[j]).key@)
                        &&& self.registry.fetchers().contains_key(stale@[j].key@)
                        &&& stale@[j].query.fetcher == self.registry.fetchers()[stale@[j].key@]
                    },
            decreases matching.len() - i,
        {
            match self.registry.find(matching[i].as_slice()) {
                Some(query) => {
                    let key = slice_to_vec(matching[i].as_slice());
                    stale.push(LiveQuery { key, query });
                },
                None => {},
            }
            i += 1;
        }
        stale
    }

    /// Drops what has expired: the cache entries that have outlived their
    /// lifetime at the present moment, and the fetchers of the queries that
    /// nobody listens to any more.
    pub fn collect_garbage(&mut self)
        ensures
            exists|now: u64| final(self).entries() == #[trigger] swept(old(self).entries(), now),
            final(self).fetchers().submap_of(old(self).fetchers()),
            final(self).options() == old(self).options(),
    {
        self.cache.collect_garbage();
        let ghost now = choose|now: u64| self.cache@ == #[trigger] swept(old(self).cache@, now);
        self.registry.reap_orphaned_fetchers();
        assert(self.entries() == swept(old(self).entries(), now));
    }

    /// The value cached under `id`, unless it is older at `now` than the
    /// default policy allows.
    pub fn query_data_at(&self, id: &[u64], now: u64) -> (found: Option<Rc<V>>)
        ensures
            found == lookup(self.entries(), id@, self.options().cache_expiration, now),
    {
        self.cache.get_at(id, self.default_options.cache_expiration, now)
    }

    /// The value cached under the key of `key`, unless it is older at the
    /// present moment than the default policy allows.
    pub fn query_data<K: AsKeys>(&self, key: K) -> (found: Option<Rc<V>>)
        ensures
            exists|id: Seq<u64>, now: u64|
                found == #[trigger] lookup(
                    self.entries(),
                    id,
                    self.options().cache_expiration,
                    now,
                ),
    {
        let id = key.as_keys();
        let now = self.cache.now();
        self.query_data_at(id.as_slice(), now)
    }

    /// Puts `value` into the cache under `id` as of the moment `now`, with the
    /// default lifetime, and hands back the data container that has to show
    /// it from now on.
    pub fn set_query_data_at(&mut self, id: Vec<u64>, value: Rc<V>, now: u64) -> (update: DataUpdate<
        V,
        D,
    >)
        ensures
            final(self).entries() == stored(
                old(self).entries(),
                id@,
                value,
                old(self).options().cache_expiration,
                now,
            ),
            update.value == value,
            final(self).fetchers() == old(self).fetchers(),
            final(self).options() == old(self).options(),
    {
        let container = self.registry.data(id.as_slice());
        let value = self.cache.insert_at(id, value, self.default_options.cache_expiration, now);
        DataUpdate { value, container }
    }

    /// Puts `value` into the cache under the key of `key` as of the present
    /// moment, and hands back the data container that has to show it.
    pub fn set_query_data<K: AsKeys>(&mut self, key: K, value: V) -> (update: DataUpdate<V, D>)
        ensures
            *update.value == value,
            exists|id: Seq<u64>, now: u64|
                final(self).entries() == #[trigger] stored(
                    old(self).entries(),
                    id,
                    update.value,
                    old(self).options().cache_expiration,
                    now,
                ),
            final(self).fetchers() == old(self).fetchers(),
            final(self).options() == old(self).options(),
    {
        let id = key.as_keys();
        let now = self.cache.now();
        self.set_query_data_at(id, Rc::new(value), now)
    }
}

} // verus!
