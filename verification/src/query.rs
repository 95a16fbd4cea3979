//! The decisions of one run of a query: serve what is cached, start a fetch,
//! or leave a running fetch alone; and, once a fetch runs, retry or finish.
//!
//! The fetcher itself and the waiting between attempts are the caller's part.
//! The caller hands each outcome to [`FetchTask::settle`] and does what the
//! step says.

use vstd::prelude::*;
use vstd::slice::slice_to_vec;
use std::rc::Rc;
use crate::cache::{evicted, lookup, stored};
use crate::key::matches_any;
use crate::client::{LiveQuery, QueryClient};
use crate::data::{settled, QueryData, Status};
use crate::options::{ClientOptions, QueryOptions};
use crate::registry::Registration;

verus! {

/// What one run of a query decides.
pub enum Decision {
    /// A cached value is served, and the key is revalidated.
    Revalidate,
    /// No value is cached and no fetch is in flight: a fetch starts.
    Fetch,
    /// No value is cached, but a fetch is in flight already: nothing to do.
    Wait,
}

/// The decision of a run that found `cached` in the cache while the status of
/// the query was `status`.
pub open spec fn decided(cached: bool, status: Status) -> Decision {
    if cached {
        Decision::Revalidate
    } else if status != Status::Fetching {
        Decision::Fetch
    } else {
        Decision::Wait
    }
}

/// The status of the query once the decision has been carried out: a fetch
/// that starts marks the query as fetching.
pub open spec fn status_after(decision: Decision, status: Status) -> Status {
    match decision {
        Decision::Fetch => Status::Fetching,
        _ => status,
    }
}

/// Computes [`decided`].
pub fn decide(cached: bool, status: Status) -> (decision: Decision)
    ensures
        decision == decided(cached, status),
{
    if cached {
        Decision::Revalidate
    } else if status != Status::Fetching {
        Decision::Fetch
    } else {
        Decision::Wait
    }
}

/// A run never starts a fetch for a query that is fetching already, and a
/// run that finds a cached value revalidates it whatever the status is.
pub proof fn lemma_no_second_fetch(cached: bool, status: Status)
    ensures
        !(decided(cached, Status::Fetching) is Fetch),
        decided(true, status) is Revalidate,
{
}

/// Of two runs for the same key that both miss the cache, exactly the first
/// starts a fetch: it leaves the query fetching, so the second one waits for
/// the first one's result.
pub proof fn lemma_two_runs_one_fetch(status: Status)
    requires
        status != Status::Fetching,
    ensures
        decided(false, status) is Fetch,
        decided(false, status_after(decided(false, status), status)) is Wait,
{
}

/// What to do after an attempt of a fetch.
pub enum FetchStep<T, E> {
    /// Wait as long as the policy says for failed attempt number `attempt`,
    /// then fetch again.
    Retry { attempt: u32 },
    /// The cycle is over, with this data.
    Finish(QueryData<T, E>),
}

/// The step after an attempt that ended in `outcome`, when `attempt` retries
/// have been made before and `retries` are allowed.
pub open spec fn step_after<T, E>(attempt: u32, retries: u32, outcome: Result<T, E>) -> FetchStep<
    T,
    E,
> {
    if outcome is Err && attempt < retries {
        FetchStep::Retry { attempt }
    } else {
        FetchStep::Finish(settled(outcome))
    }
}

/// Where a fetch cycle stands after the attempts whose outcomes are
/// `outcomes`, in their order: the data it finished with and the number of
/// attempts that it took, or nothing if it has not finished yet.
pub open spec fn cycle<T, E>(attempt: u32, retries: u32, outcomes: Seq<Result<T, E>>) -> Option<
    (QueryData<T, E>, nat),
>
    decreases outcomes.len(),
{
    if outcomes.len() == 0 {
        None
    } else {
        match step_after(attempt, retries, outcomes[0]) {
            FetchStep::Finish(data) => Some((data, 1nat)),
            FetchStep::Retry { .. } => match cycle(
                (attempt + 1) as u32,
                retries,
                outcomes.drop_first(),
            ) {
                Some((data, attempts)) => Some((data, attempts + 1)),
                None => None,
            },
        }
    }
}

/// A fetcher that fails as often as retries are left and then succeeds ends
/// the cycle with the value it brought, on its last attempt.
pub proof fn lemma_success_after_retries<T, E>(
    attempt: u32,
    retries: u32,
    outcomes: Seq<Result<T, E>>,
)
    requires
        attempt <= retries,
        outcomes.len() == retries - attempt + 1,
        forall|i: int| 0 <= i < outcomes.len() - 1 ==> (#[trigger] outcomes[i]) is Err,
        outcomes.last() is Ok,
    ensures
        cycle(attempt, retries, outcomes) == Some(
            (QueryData::<T, E>::Fetched(outcomes.last()->Ok_0), outcomes.len()),
        ),
    decreases outcomes.len(),
{
    if attempt < retries {
        let rest = outcomes.drop_first();
        assert(outcomes[0] is Err);
        assert(rest.last() == outcomes.last());
        assert forall|i: int| 0 <= i < rest.len() - 1 implies (#[trigger] rest[i]) is Err by {
            assert(rest[i] == outcomes[i + 1]);
        }
        lemma_success_after_retries((attempt + 1) as u32, retries, rest);
    } else {
        assert(outcomes[0] == outcomes.last());
    }
}

/// A fetcher that fails once more than retries are left ends the cycle with
/// its last error, on that attempt.
pub proof fn lemma_failure_after_retries<T, E>(
    attempt: u32,
    retries: u32,
    outcomes: Seq<Result<T, E>>,
)
    requires
        attempt <= retries,
        outcomes.len() == retries - attempt + 1,
        forall|i: int| 0 <= i < outcomes.len() ==> (#[trigger] outcomes[i]) is Err,
    ensures
        cycle(attempt, retries, outcomes) == Some(
            (QueryData::<T, E>::Failed(outcomes.last()->Err_0), outcomes.len()),
        ),
    decreases outcomes.len(),
{
    if attempt < retries {
        let rest = outcomes.drop_first();
        assert(outcomes[0] is Err);
        assert(rest.last() == outcomes.last());
        assert forall|i: int| 0 <= i < rest.len() implies (#[trigger] rest[i]) is Err by {
            assert(rest[i] == outcomes[i + 1]);
        }
        lemma_failure_after_retries((attempt + 1) as u32, retries, rest);
    } else {
        assert(outcomes[0] == outcomes.last());
    }
}

/// However the attempts end, a cycle takes no more than one attempt and the
/// retries that are left, and it never ends without data.
pub proof fn lemma_cycle_is_bounded<T, E>(attempt: u32, retries: u32, outcomes: Seq<Result<T, E>>)
    requires
        attempt <= retries,
    ensures
        cycle(attempt, retries, outcomes) matches Some((data, attempts)) ==> 1 <= attempts
            <= retries - attempt + 1 && !(data is Loading),
        outcomes.len() >= retries - attempt + 1 ==> cycle(attempt, retries, outcomes) is Some,
    decreases outcomes.len(),
{
    if outcomes.len() > 0 && attempt < retries {
        lemma_cycle_is_bounded((attempt + 1) as u32, retries, outcomes.drop_first());
    }
}

/// A fetch cycle in progress: the key it fetches for, the policy in force,
/// and the number of retries made so far.
pub struct FetchTask<R> {
    pub key: Vec<u64>,
    pub options: ClientOptions<R>,
    pub attempt: u32,
}

impl<R> FetchTask<R> {
    /// A cycle that has made no attempt yet.
    pub fn new(key: Vec<u64>, options: ClientOptions<R>) -> (task: Self)
        ensures
            task.key == key,
            task.options == options,
            task.attempt == 0,
    {
        FetchTask { key, options, attempt: 0 }
    }

    /// Takes the outcome of an attempt and says what follows: a value ends
    /// the cycle; an error is retried while retries are left, and ends the
    /// cycle when none is. A retry is counted.
    pub fn settle<T, E>(&mut self, outcome: Result<T, E>) -> (step: FetchStep<T, E>)
        ensures
            step == step_after(old(self).attempt, old(self).options.retries, outcome),
            final(self).key == old(self).key,
            final(self).options == old(self).options,
            final(self).attempt == if step is Retry {
                old(self).attempt + 1
            } else {
                old(self).attempt as int
            },
    {
        if outcome.is_err() && self.attempt < self.options.retries {
            let attempt = self.attempt;
            self.attempt = attempt + 1;
            FetchStep::Retry { attempt }
        } else {
            FetchStep::Finish(QueryData::from_result(outcome))
        }
    }
}

/// What one run of a query asks of its caller.
pub enum RunPlan<V, D, S, F, R> {
    /// Show `cached` in the data container. The key has been invalidated:
    /// run each of the `stale` queries again.
    Revalidate { cached: Rc<V>, stale: Vec<LiveQuery<D, S, F>> },
    /// Mark the query as fetching and start the fetch cycle that is given.
    Fetch(FetchTask<R>),
    /// Do nothing: the fetch that is in flight will bring the result.
    Wait,
}

impl<V, D, S, F, R> RunPlan<V, D, S, F, R> {
    /// The decision that the plan carries out.
    pub open spec fn decision(self) -> Decision {
        match self {
            RunPlan::Revalidate { .. } => Decision::Revalidate,
            RunPlan::Fetch(_) => Decision::Fetch,
            RunPlan::Wait => Decision::Wait,
        }
    }
}

impl<V, D, S, F, R> QueryClient<V, D, S, F, R> {
    /// What a run for `key` at the moment `now` makes of the client `before`:
    /// the client `after` it and the plan for the caller.
    ///
    /// The policy is the default one with `options` laid over it. A value
    /// that is cached and fresh under that policy is served, and the key is
    /// invalidated, so that the value is fetched anew. Without such a value a
    /// fetch starts, unless one is in flight.
    pub open spec fn runs(
        before: Self,
        after: Self,
        key: Seq<u64>,
        status: Status,
        options: QueryOptions<R>,
        now: u64,
        plan: RunPlan<V, D, S, F, R>,
    ) -> bool {
        let merged = before.options().merged_with(options);
        let hit = lookup(before.entries(), key, merged.cache_expiration, now);
        &&& after.options() == before.options()
        &&& after.fetchers() == before.fetchers()
        &&& plan.decision() == decided(hit is Some, status)
        &&& match plan {
            RunPlan::Revalidate { cached, stale } => {
                &&& hit == Some(cached)
                &&& after.entries() == evicted(before.entries(), seq![key])
                &&& forall|i: int|
                    0 <= i < stale@.len() ==> {
                        &&& key.is_prefix_of((#[trigger] stale@[i]).key@)
                        &&& after.fetchers().contains_key(stale@[i].key@)
                        &&& stale@[i].query.fetcher == after.fetchers()[stale@[i].key@]
                    }
            },
            RunPlan::Fetch(task) => {
                &&& after.entries() == before.entries()
                &&& task.key@ == key
                &&& task.options == merged
                &&& task.attempt == 0
            },
            RunPlan::Wait => after.entries() == before.entries(),
        }
    }

    /// What the end of a fetch cycle at the moment `now` makes of the cache:
    /// a fetched value is stored under the task's key with the lifetime of
    /// the task's policy; an error leaves the cache as it is.
    pub open spec fn finishes<E>(
        before: Self,
        after: Self,
        key: Seq<u64>,
        lifetime: u64,
        data: QueryData<Rc<V>, E>,
        now: u64,
    ) -> bool {
        &&& after.options() == before.options()
        &&& after.fetchers() == before.fetchers()
        &&& after.entries() == match data {
            QueryData::Fetched(value) => stored(before.entries(), key, value, lifetime, now),
            _ => before.entries(),
        }
    }

    /// A value that a fetch brought is in the cache when its cycle has been
    /// finished: a lookup at that moment finds it.
    pub proof fn lemma_fetched_value_is_cached<E>(
        before: Self,
        after: Self,
        key: Seq<u64>,
        lifetime: u64,
        value: Rc<V>,
        now: u64,
    )
        requires
            Self::finishes(before, after, key, lifetime, QueryData::<Rc<V>, E>::Fetched(value), now),
        ensures
            lookup(after.entries(), key, lifetime, now) == Some(value),
    {
    }

    /// Of two runs for one key that is not in the cache, whatever their
    /// moments and options, exactly the first starts a fetch, provided the
    /// query shows the status that the first run leaves it with: the second
    /// run waits.
    pub proof fn lemma_runs_fetch_once(
        start: Self,
        between: Self,
        end: Self,
        key: Seq<u64>,
        status: Status,
        first_options: QueryOptions<R>,
        second_options: QueryOptions<R>,
        first_now: u64,
        second_now: u64,
        first: RunPlan<V, D, S, F, R>,
        second: RunPlan<V, D, S, F, R>,
    )
        requires
            !start.entries().contains_key(key),
            status != Status::Fetching,
            Self::runs(start, between, key, status, first_options, first_now, first),
            Self::runs(
                between,
                end,
                key,
                status_after(first.decision(), status),
                second_options,
                second_now,
                second,
            ),
        ensures
            first is Fetch,
            second is Wait,
            end.entries() == start.entries(),
    {
    }

    /// A query under an invalidated prefix misses the cache when it runs
    /// next: it is never served from what was cached before the invalidation.
    pub proof fn lemma_run_after_eviction(
        entries: Map<Seq<u64>, crate::cache::CacheEntry<V>>,
        prefixes: Seq<Seq<u64>>,
        before: Self,
        after: Self,
        key: Seq<u64>,
        status: Status,
        options: QueryOptions<R>,
        now: u64,
        plan: RunPlan<V, D, S, F, R>,
    )
        requires
            before.entries() == evicted(entries, prefixes),
            matches_any(prefixes, key),
            Self::runs(before, after, key, status, options, now, plan),
        ensures
            !(plan is Revalidate),
            plan is Fetch <==> status != Status::Fetching,
    {
    }

    /// The live query under `key`: its containers and its fetcher, or nothing
    /// if any of them is missing.
    pub fn find_query(&self, key: &[u64]) -> (found: Option<Registration<D, S, F>>)
        ensures
            !self.fetchers().contains_key(key@) ==> found is None,
            found matches Some(query) ==> query.fetcher == self.fetchers()[key@],
    {
        self.registry.find(key)
    }

    /// Registers a query under `key`. Its fetcher takes the place of any that
    /// was registered under the key before.
    pub fn insert_query(&mut self, key: Vec<u64>, data: Rc<D>, status: Rc<S>, fetcher: Rc<F>)
        ensures
            final(self).fetchers() == old(self).fetchers().insert(key@, fetcher),
            final(self).entries() == old(self).entries(),
            final(self).options() == old(self).options(),
    {
        self.registry.register(key, data, status, fetcher);
    }

    /// Runs the query under `key` as of the moment `now`; `status` is what
    /// its status container shows.
    pub fn run_query_at(
        &mut self,
        key: &[u64],
        status: Status,
        options: &QueryOptions<R>,
        now: u64,
    ) -> (plan: RunPlan<V, D, S, F, R>)
        ensures
            Self::runs(*old(self), *final(self), key@, status, *options, now, plan),
    {
        let merged = self.default_options.merge(options);
        let hit = self.cache.get_at(key, merged.cache_expiration, now);
        match decide(hit.is_some(), status) {
            Decision::Revalidate => {
                let cached = hit.unwrap();
                let stale = self.refetch_query(key);
                RunPlan::Revalidate { cached, stale }
            },
            Decision::Fetch => RunPlan::Fetch(FetchTask::new(slice_to_vec(key), merged)),
            Decision::Wait => RunPlan::Wait,
        }
    }

    /// Runs the query under `key` as of the present moment.
    pub fn run_query(&mut self, key: &[u64], status: Status, options: &QueryOptions<R>) -> (plan:
        RunPlan<V, D, S, F, R>)
        ensures
            exists|now: u64| #[trigger]
                Self::runs(*old(self), *final(self), key@, status, *options, now, plan),
    {
        let now = self.cache.now();
        self.run_query_at(key, status, options, now)
    }

    /// Fetches the query under `key` anew, and every query whose key starts
    /// with it: the same as invalidating the one key.
    pub fn refetch_query(&mut self, key: &[u64]) -> (stale: Vec<LiveQuery<D, S, F>>)
        ensures
            final(self).entries() == evicted(old(self).entries(), seq![key@]),
            final(self).fetchers() == old(self).fetchers(),
            final(self).options() == old(self).options(),
            forall|i: int|
                0 <= i < stale@.len() ==> {
                    &&& key@.is_prefix_of((#[trigger] stale@[i]).key@)
                    &&& final(self).fetchers().contains_key(stale@[i].key@)
                    &&& stale@[i].query.fetcher == final(self).fetchers()[stale@[i].key@]
                },
    {
        let mut keys: Vec<Vec<u64>> = Vec::new();
        keys.push(slice_to_vec(key));
        proof {
            assert(crate::key::owned_views(keys@) =~= seq![key@]);
        }
        let stale = self.invalidate_queries(keys);
        proof {
            assert forall|i: int| 0 <= i < stale@.len() implies key@.is_prefix_of(
                (#[trigger] stale@[i]).key@,
            ) by {
                let j = choose|j: int|
                    0 <= j < seq![key@].len() && (#[trigger] seq![key@][j]).is_prefix_of(
                        stale@[i].key@,
                    );
                assert(seq![key@][j] == key@);
            }
        }
        stale
    }

    /// Ends a fetch cycle as of the moment `now`: stores a fetched value in
    /// the cache, and gives the status that the query has from now on. The
    /// status is `Success` whether or not the fetch brought a value: it says
    /// that the cycle is over.
    pub fn finish_fetch_at<E>(
        &mut self,
        task: &FetchTask<R>,
        data: &QueryData<Rc<V>, E>,
        now: u64,
    ) -> (status: Status)
        ensures
            status == Status::Success,
            Self::finishes(
                *old(self),
                *final(self),
                task.key@,
                task.options.cache_expiration,
                *data,
                now,
            ),
    {
        match data {
            QueryData::Fetched(value) => {
                self.cache.insert_at(
                    slice_to_vec(task.key.as_slice()),
                    value.clone(),
                    task.options.cache_expiration,
                    now,
                );
            },
            _ => {},
        }
        Status::Success
    }

    /// Ends a fetch cycle as of the present moment.
    pub fn finish_fetch<E>(&mut self, task: &FetchTask<R>, data: &QueryData<Rc<V>, E>) -> (status:
        Status)
        ensures
            status == Status::Success,
            exists|now: u64| #[trigger]
                Self::finishes(
                    *old(self),
                    *final(self),
                    task.key@,
                    task.options.cache_expiration,
                    *data,
                    now,
                ),
    {
        let now = self.cache.now();
        self.finish_fetch_at(task, data, now)
    }
}

} // verus!
