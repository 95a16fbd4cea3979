//! Turning values into keys: one segment for a text, one segment for each
//! member of a tuple.

use vstd::prelude::*;
use std::hash::Hash;
use crate::util::{hash_key, hash_str, str_segment};

verus! {

/// Anything that can be turned into a key. A tuple gives one segment for each
/// of its members, so that all keys that start with the same members can be
/// invalidated together.
pub trait AsKeys {
    /// The key of this value.
    fn as_keys(&self) -> Vec<u64>;
}

impl AsKeys for str {
    fn as_keys(&self) -> (keys: Vec<u64>)
        ensures
            keys@ == seq![str_segment(self@)],
    {
        let segment: u64 = hash_str(self);
        let mut keys: Vec<u64> = Vec::new();
        keys.push(segment);
        assert(keys@ =~= seq![str_segment(self@)]);
        keys
    }
}

impl AsKeys for &str {
    fn as_keys(&self) -> (keys: Vec<u64>)
        ensures
            keys@ == seq![str_segment(self@)],
    {
        let segment: u64 = hash_str(*self);
        let mut keys: Vec<u64> = Vec::new();
        keys.push(segment);
        assert(keys@ =~= seq![str_segment(self@)]);
        keys
    }
}

impl AsKeys for String {
    fn as_keys(&self) -> (keys: Vec<u64>)
        ensures
            keys@ == seq![str_segment(self@)],
    {
        self.as_str().as_keys()
    }
}

impl<T1: Hash, T2: Hash> AsKeys for (T1, T2) {
    fn as_keys(&self) -> (keys: Vec<u64>)
        ensures
            keys@.len() == 2,
    {
        let mut keys: Vec<u64> = Vec::new();
        keys.push(hash_key(&self.0));
        keys.push(hash_key(&self.1));
        keys
    }
}

impl<T1: Hash, T2: Hash, T3: Hash> AsKeys for (T1, T2, T3) {
    fn as_keys(&self) -> (keys: Vec<u64>)
        ensures
            keys@.len() == 3,
    {
        let mut keys: Vec<u64> = Vec::new();
        keys.push(hash_key(&self.0));
        keys.push(hash_key(&self.1));
        keys.push(hash_key(&self.2));
        keys
    }
}

impl<T1: Hash, T2: Hash, T3: Hash, T4: Hash> AsKeys for (T1, T2, T3, T4) {
    fn as_keys(&self) -> (keys: Vec<u64>)
        ensures
            keys@.len() == 4,
    {
        let mut keys: Vec<u64> = Vec::new();
        keys.push(hash_key(&self.0));
        keys.push(hash_key(&self.1));
        keys.push(hash_key(&self.2));
        keys.push(hash_key(&self.3));
        keys
    }
}

impl<T1: Hash, T2: Hash, T3: Hash, T4: Hash, T5: Hash> AsKeys for (T1, T2, T3, T4, T5) {
    fn as_keys(&self) -> (keys: Vec<u64>)
        ensures
            keys@.len() == 5,
    {
        let mut keys: Vec<u64> = Vec::new();
        keys.push(hash_key(&self.0));
        keys.push(hash_key(&self.1));
        keys.push(hash_key(&self.2));
        keys.push(hash_key(&self.3));
        keys.push(hash_key(&self.4));
        keys
    }
}

impl<
    T1: Hash,
    T2: Hash,
    T3: Hash,
    T4: Hash,
    T5: Hash,
    T6: Hash,
> AsKeys for (T1, T2, T3, T4, T5, T6) {
    fn as_keys(&self) -> (keys: Vec<u64>)
        ensures
            keys@.len() == 6,
    {
        let mut keys: Vec<u64> = Vec::new();
        keys.push(hash_key(&self.0));
        keys.push(hash_key(&self.1));
        keys.push(hash_key(&self.2));
        keys.push(hash_key(&self.3));
        keys.push(hash_key(&self.4));
        keys.push(hash_key(&self.5));
        keys
    }
}

impl<
    T1: Hash,
    T2: Hash,
    T3: Hash,
    T4: Hash,
    T5: Hash,
    T6: Hash,
    T7: Hash,
> AsKeys for (T1, T2, T3, T4, T5, T6, T7) {
    fn as_keys(&self) -> (keys: Vec<u64>)
        ensures
            keys@.len() == 7,
    {
        let mut keys: Vec<u64> = Vec::new();
        keys.push(hash_key(&self.0));
        keys.push(hash_key(&self.1));
        keys.push(hash_key(&self.2));
        keys.push(hash_key(&self.3));
        keys.push(hash_key(&self.4));
        keys.push(hash_key(&self.5));
        keys.push(hash_key(&self.6));
        keys
    }
}

impl<
    T1: Hash,
    T2: Hash,
    T3: Hash,
    T4: Hash,
    T5: Hash,
    T6: Hash,
    T7: Hash,
    T8: Hash,
> AsKeys for (T1, T2, T3, T4, T5, T6, T7, T8) {
    fn as_keys(&self) -> (keys: Vec<u64>)
        ensures
            keys@.len() == 8,
    {
        let mut keys: Vec<u64> = Vec::new();
        keys.push(hash_key(&self.0));
        keys.push(hash_key(&self.1));
        keys.push(hash_key(&self.2));
        keys.push(hash_key(&self.3));
        keys.push(hash_key(&self.4));
        keys.push(hash_key(&self.5));
        keys.push(hash_key(&self.6));
        keys.push(hash_key(&self.7));
        keys
    }
}

impl<
    T1: Hash,
    T2: Hash,
    T3: Hash,
    T4: Hash,
    T5: Hash,
    T6: Hash,
    T7: Hash,
    T8: Hash,
    T9: Hash,
> AsKeys for (T1, T2, T3, T4, T5, T6, T7, T8, T9) {
    fn as_keys(&self) -> (keys: Vec<u64>)
        ensures
            keys@.len() == 9,
    {
        let mut keys: Vec<u64> = Vec::new();
        keys.push(hash_key(&self.0));
        keys.push(hash_key(&self.1));
        keys.push(hash_key(&self.2));
        keys.push(hash_key(&self.3));
        keys.push(hash_key(&self.4));
        keys.push(hash_key(&self.5));
        keys.push(hash_key(&self.6));
        keys.push(hash_key(&self.7));
        keys.push(hash_key(&self.8));
        keys
    }
}

impl<
    T1: Hash,
    T2: Hash,
    T3: Hash,
    T4: Hash,
    T5: Hash,
    T6: Hash,
    T7: Hash,
    T8: Hash,
    T9: Hash,
    T10: Hash,
> AsKeys for (T1, T2, T3, T4, T5, T6, T7, T8, T9, T10) {
    fn as_keys(&self) -> (keys: Vec<u64>)
        ensures
            keys@.len() == 10,
    {
        let mut keys: Vec<u64> = Vec::new();
        keys.push(hash_key(&self.0));
        keys.push(hash_key(&self.1));
        keys.push(hash_key(&self.2));
        keys.push(hash_key(&self.3));
        keys.push(hash_key(&self.4));
        keys.push(hash_key(&self.5));
        keys.push(hash_key(&self.6));
        keys.push(hash_key(&self.7));
        keys.push(hash_key(&self.8));
        keys.push(hash_key(&self.9));
        keys
    }
}

impl<
    T1: Hash,
    T2: Hash,
    T3: Hash,
    T4: Hash,
    T5: Hash,
    T6: Hash,
    T7: Hash,
    T8: Hash,
    T9: Hash,
    T10: Hash,
    T11: Hash,
> AsKeys for (T1, T2, T3, T4, T5, T6, T7, T8, T9, T10, T11) {
    fn as_keys(&self) -> (keys: Vec<u64>)
        ensures
            keys@.len() == 11,
    {
        let mut keys: Vec<u64> = Vec::new();
        keys.push(hash_key(&self.0));
        keys.push(hash_key(&self.1));
        keys.push(hash_key(&self.2));
        keys.push(hash_key(&self.3));
        keys.push(hash_key(&self.4));
        keys.push(hash_key(&self.5));
        keys.push(hash_key(&self.6));
        keys.push(hash_key(&self.7));
        keys.push(hash_key(&self.8));
        keys.push(hash_key(&self.9));
        keys.push(hash_key(&self.10));
        keys
    }
}

impl<
    T1: Hash,
    T2: Hash,
    T3: Hash,
    T4: Hash,
    T5: Hash,
    T6: Hash,
    T7: Hash,
    T8: Hash,
    T9: Hash,
    T10: Hash,
    T11: Hash,
    T12: Hash,
> AsKeys for (T1, T2, T3, T4, T5, T6, T7, T8, T9, T10, T11, T12) {
    fn as_keys(&self) -> (keys: Vec<u64>)
        ensures
            keys@.len() == 12,
    {
        let mut keys: Vec<u64> = Vec::new();
        keys.push(hash_key(&self.0));
        keys.push(hash_key(&self.1));
        keys.push(hash_key(&self.2));
        keys.push(hash_key(&self.3));
        keys.push(hash_key(&self.4));
        keys.push(hash_key(&self.5));
        keys.push(hash_key(&self.6));
        keys.push(hash_key(&self.7));
        keys.push(hash_key(&self.8));
        keys.push(hash_key(&self.9));
        keys.push(hash_key(&self.10));
        keys.push(hash_key(&self.11));
        keys
    }
}

} // verus!
