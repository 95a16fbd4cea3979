//! What a consumer sees of a query: its data and the status of its fetch.

use vstd::prelude::*;
use std::rc::Rc;

verus! {

/// The data of a query.
pub enum QueryData<T, E> {
    /// No data is available yet.
    Loading,
    /// Data was fetched and is available; it may be stale.
    Fetched(T),
    /// No data could be fetched, even after every retry; this is the last
    /// error.
    Failed(E),
}

/// The status of a query's fetch.
#[derive(Debug, PartialEq, Eq, Clone, Copy, Structural)]
pub enum Status {
    /// Data is being fetched, for the first time or to refresh it.
    Fetching,
    /// The last fetch has run to its end, whether or not it brought data.
    Success,
    /// Nothing has been fetched yet.
    Idle,
}

/// The data that the result of a fetch stands for.
pub open spec fn settled<T, E>(outcome: Result<T, E>) -> QueryData<T, E> {
    match outcome {
        Ok(value) => QueryData::Fetched(value),
        Err(error) => QueryData::Failed(error),
    }
}

impl<T: Clone, E: Clone> Clone for QueryData<T, E> {
    fn clone(&self) -> (copy: Self)
        ensures
            (*self is Loading) == (copy is Loading),
            (*self is Fetched) == (copy is Fetched),
            (*self is Failed) == (copy is Failed),
    {
        match self {
            QueryData::Loading => QueryData::Loading,
            QueryData::Fetched(value) => QueryData::Fetched(value.clone()),
            QueryData::Failed(error) => QueryData::Failed(error.clone()),
        }
    }
}

impl<T, E> QueryData<T, E> {
    /// Turns the result of a fetch into data: never `Loading`.
    pub fn from_result(outcome: Result<T, E>) -> (data: Self)
        ensures
            data == settled(outcome),
            !(data is Loading),
    {
        match outcome {
            Ok(value) => QueryData::Fetched(value),
            Err(error) => QueryData::Failed(error),
        }
    }
}

impl<T, E> QueryData<Rc<T>, Rc<E>> {
    /// Another handle on the same data: the value and the error are shared,
    /// not copied.
    pub fn get_data(&self) -> (data: Self)
        ensures
            data == *self,
    {
        match self {
            QueryData::Loading => QueryData::Loading,
            QueryData::Fetched(value) => QueryData::Fetched(value.clone()),
            QueryData::Failed(error) => QueryData::Failed(error.clone()),
        }
    }
}

} // verus!
