//! The decisions of one run of a mutation: a one-shot write whose success is
//! reported to a hook, which reconciles the cache.

use vstd::prelude::*;
use std::rc::Rc;
use crate::client::QueryClient;
use crate::data::{QueryData, Status};

verus! {

/// What happens to a mutation.
pub enum MutationEvent<T, E> {
    /// The mutation was called.
    Started,
    /// The mutator has returned.
    Settled(Result<T, E>),
}

/// What the caller has to do for a mutation.
pub struct MutationStep<T, E> {
    /// The status to show.
    pub status: Status,
    /// The data to show, if it changes.
    pub data: Option<QueryData<Rc<T>, Rc<E>>>,
    /// The output to call the success hook with, if the mutation succeeded.
    pub succeeded: Option<Rc<T>>,
}

impl<V, D, S, F, R> QueryClient<V, D, S, F, R> {
    /// Says what follows from `event`.
    ///
    /// A mutation that starts is shown as fetching, and its data stays as it
    /// is. One that has settled shows its output or its error, and its cycle
    /// is over; the success hook is owed a call exactly if there is an output,
    /// and gets the output that is shown.
    pub fn run_mutation<T, E>(&self, event: MutationEvent<T, E>) -> (step: MutationStep<T, E>)
        ensures
            match event {
                MutationEvent::Started => {
                    &&& step.status == Status::Fetching
                    &&& step.data is None
                    &&& step.succeeded is None
                },
                MutationEvent::Settled(Ok(output)) => {
                    &&& step.status == Status::Success
                    &&& step.data matches Some(QueryData::Fetched(shown)) && *shown == output
                    &&& step.succeeded matches Some(reported) && *reported == output
                },
                MutationEvent::Settled(Err(error)) => {
                    &&& step.status == Status::Success
                    &&& step.data matches Some(QueryData::Failed(shown)) && *shown == error
                    &&& step.succeeded is None
                },
            },
    {
        match event {
            MutationEvent::Started => MutationStep {
                status: Status::Fetching,
                data: None,
                succeeded: None,
            },
            MutationEvent::Settled(Ok(output)) => {
                let output = Rc::new(output);
                MutationStep {
                    status: Status::Success,
                    data: Some(QueryData::Fetched(output.clone())),
                    succeeded: Some(output),
                }
            },
            MutationEvent::Settled(Err(error)) => MutationStep {
                status: Status::Success,
                data: Some(QueryData::Failed(Rc::new(error))),
                succeeded: None,
            },
        }
    }
}

} // verus!
