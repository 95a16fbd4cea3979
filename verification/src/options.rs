//! The policy of a client and what a single query may override of it.

use vstd::prelude::*;
use vstd::arithmetic::power2::{lemma2_to64, lemma_pow2_strictly_increases, pow2};
use std::rc::Rc;
use crate::clock::NANOS_PER_SEC;

verus! {

/// How long to wait between one failed attempt and the next.
pub trait RetryDelay {
    /// The nanoseconds to wait after failed attempt number `attempt`, which
    /// counts from 0.
    fn delay(&self, attempt: u32) -> u64;
}

/// The default lifetime of a cached value: five minutes.
pub const DEFAULT_CACHE_EXPIRATION: u64 = 300_000_000_000;

/// The default number of retries.
pub const DEFAULT_RETRIES: u32 = 3;

/// The longest wait of the default policy, in seconds.
pub const MAX_BACKOFF_SECS: u64 = 30;

/// The wait of the default policy after failed attempt number `attempt`: one
/// second, doubled with every attempt, and never more than thirty seconds.
pub open spec fn backoff_nanos(attempt: u32) -> int {
    if pow2(attempt as nat) < MAX_BACKOFF_SECS {
        pow2(attempt as nat) * NANOS_PER_SEC
    } else {
        MAX_BACKOFF_SECS * NANOS_PER_SEC
    }
}

/// The default policy: exponential backoff from one second, capped at thirty.
#[derive(Clone, Copy, Debug)]
pub struct ExponentialBackoff;

impl RetryDelay for ExponentialBackoff {
    fn delay(&self, attempt: u32) -> (nanos: u64)
        ensures
            nanos == backoff_nanos(attempt),
            NANOS_PER_SEC <= nanos <= MAX_BACKOFF_SECS * NANOS_PER_SEC,
    {
        proof {
            lemma2_to64();
            if attempt > 5 {
                lemma_pow2_strictly_increases(5, attempt as nat);
            }
        }
        let secs: u64 = if attempt == 0 {
            1
        } else if attempt == 1 {
            2
        } else if attempt == 2 {
            4
        } else if attempt == 3 {
            8
        } else if attempt == 4 {
            16
        } else {
            MAX_BACKOFF_SECS
        };
        secs * NANOS_PER_SEC
    }
}

/// The policy of a client. A query may override any part of it with
/// [`QueryOptions`].
pub struct ClientOptions<R> {
    /// The nanoseconds before a cached value expires.
    pub cache_expiration: u64,
    /// How often a failed fetch is tried again.
    pub retries: u32,
    /// The wait between one failed attempt and the next.
    pub retry_fn: Rc<R>,
}

/// What a single query overrides of its client's policy; a field that is not
/// set falls back to the client's.
pub struct QueryOptions<R> {
    /// The nanoseconds before a cached value expires.
    pub cache_expiration: Option<u64>,
    /// How often a failed fetch is tried again.
    pub retries: Option<u32>,
    /// The wait between one failed attempt and the next.
    pub retry_fn: Option<Rc<R>>,
}

impl<R> ClientOptions<R> {
    /// The policy with each field that `query_options` sets put in place of
    /// this policy's own.
    pub open spec fn merged_with(self, query_options: QueryOptions<R>) -> ClientOptions<R> {
        ClientOptions {
            cache_expiration: match query_options.cache_expiration {
                Some(nanos) => nanos,
                None => self.cache_expiration,
            },
            retries: match query_options.retries {
                Some(retries) => retries,
                None => self.retries,
            },
            retry_fn: match query_options.retry_fn {
                Some(retry_fn) => retry_fn,
                None => self.retry_fn,
            },
        }
    }

    /// Lays `query_options` over this policy, field by field.
    pub fn merge(&self, query_options: &QueryOptions<R>) -> (merged: ClientOptions<R>)
        ensures
            merged == self.merged_with(*query_options),
    {
        ClientOptions {
            cache_expiration: match query_options.cache_expiration {
                Some(nanos) => nanos,
                None => self.cache_expiration,
            },
            retries: match query_options.retries {
                Some(retries) => retries,
                None => self.retries,
            },
            retry_fn: match &query_options.retry_fn {
                Some(retry_fn) => retry_fn.clone(),
                None => self.retry_fn.clone(),
            },
        }
    }
}

impl<R: RetryDelay> ClientOptions<R> {
    /// Asks the policy how long to wait after failed attempt number `attempt`:
    /// the answer is one that the policy's own `delay` gives for that attempt.
    pub fn retry_delay(&self, attempt: u32) -> (nanos: u64)
        ensures
            call_ensures(R::delay, (&*self.retry_fn, attempt), nanos),
    {
        self.retry_fn.delay(attempt)
    }
}

impl<R> Clone for ClientOptions<R> {
    fn clone(&self) -> (copy: Self)
        ensures
            copy == *self,
    {
        ClientOptions {
            cache_expiration: self.cache_expiration,
            retries: self.retries,
            retry_fn: self.retry_fn.clone(),
        }
    }
}

impl Default for ClientOptions<ExponentialBackoff> {
    fn default() -> (options: Self)
        ensures
            options.cache_expiration == DEFAULT_CACHE_EXPIRATION,
            options.retries == DEFAULT_RETRIES,
    {
        ClientOptions {
            cache_expiration: DEFAULT_CACHE_EXPIRATION,
            retries: DEFAULT_RETRIES,
            retry_fn: Rc::new(ExponentialBackoff),
        }
    }
}

impl<R> Default for QueryOptions<R> {
    fn default() -> (options: Self)
        ensures
            options.cache_expiration is None,
            options.retries is None,
            options.retry_fn is None,
    {
        QueryOptions { cache_expiration: None, retries: None, retry_fn: None }
    }
}

/// Options that override nothing leave the client's policy as it is.
pub proof fn lemma_merge_nothing<R>(options: ClientOptions<R>, query_options: QueryOptions<R>)
    requires
        query_options.cache_expiration is None,
        query_options.retries is None,
        query_options.retry_fn is None,
    ensures
        options.merged_with(query_options) == options,
{
}

} // verus!
