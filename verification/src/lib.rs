//! A client-side query cache: hierarchical keys, a time-expiring store of
//! fetched values, a registry of the queries that are being listened to, and
//! the decisions of the fetch and retry cycle.
//!
//! Times are whole nanoseconds: moments on the clock of the cache, which
//! starts when the cache is made, and spans between them.
//!
//! The library decides; it does not fetch, wait or notify. A caller runs a
//! query through [`QueryClient::run_query`], does what the returned plan
//! says, hands each outcome of the fetcher to [`FetchTask::settle`], and ends
//! the cycle with [`QueryClient::finish_fetch`].

pub mod as_keys;
pub mod cache;
pub mod client;
pub mod clock;
pub mod data;
pub mod key;
pub mod keymap;
pub mod mutation;
pub mod options;
pub mod query;
pub mod registry;
pub mod util;

pub use as_keys::AsKeys;
pub use cache::{CacheEntry, QueryCache};
pub use client::{DataUpdate, LiveQuery, QueryClient};
pub use data::{QueryData, Status};
pub use mutation::{MutationEvent, MutationStep};
pub use options::{ClientOptions, ExponentialBackoff, QueryOptions, RetryDelay};
pub use query::{Decision, FetchStep, FetchTask, RunPlan};
pub use registry::{QueryRegistry, Registration};
pub use util::hash_key;
