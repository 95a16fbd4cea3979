//! Keys: ordered sequences of 64-bit segments, compared segment by segment and
//! grouped by prefix.

use vstd::prelude::*;

verus! {

/// The segment sequences that a list of borrowed keys stands for.
pub open spec fn key_views(keys: Seq<&[u64]>) -> Seq<Seq<u64>> {
    Seq::new(keys.len(), |i: int| keys[i]@)
}

/// The segment sequences that a list of owned keys stands for.
pub open spec fn owned_views(keys: Seq<Vec<u64>>) -> Seq<Seq<u64>> {
    Seq::new(keys.len(), |i: int| keys[i]@)
}

/// Whether some member of `prefixes` is a prefix of `key`.
pub open spec fn matches_any(prefixes: Seq<Seq<u64>>, key: Seq<u64>) -> bool {
    exists|i: int| 0 <= i < prefixes.len() && (#[trigger] prefixes[i]).is_prefix_of(key)
}

/// Tells whether the leading segments of `key` are exactly those of `prefix`.
pub fn starts_with(key: &[u64], prefix: &[u64]) -> (found: bool)
    ensures
        found == prefix@.is_prefix_of(key@),
{
    if prefix.len() > key.len() {
        return false;
    }
    let mut i: usize = 0;
    while i < prefix.len()
        invariant
            i <= prefix.len() <= key.len(),
            forall|j: int| 0 <= j < i ==> key@[j] == prefix@[j],
        decreases prefix.len() - i,
    {
        if key[i] != prefix[i] {
            return false;
        }
        i += 1;
    }
    assert(prefix@ =~= key@.subrange(0, prefix@.len() as int));
    true
}

/// Tells whether two keys hold the same segments in the same order.
pub fn same_key(a: &[u64], b: &[u64]) -> (same: bool)
    ensures
        same == (a@ == b@),
{
    if a.len() != b.len() {
        return false;
    }
    let mut i: usize = 0;
    while i < a.len()
        invariant
            i <= a.len() == b.len(),
            forall|j: int| 0 <= j < i ==> a@[j] == b@[j],
        decreases a.len() - i,
    {
        if a[i] != b[i] {
            return false;
        }
        i += 1;
    }
    assert(a@ =~= b@);
    true
}

/// Borrows each key of a list as a slice.
pub fn as_slices(keys: &Vec<Vec<u64>>) -> (slices: Vec<&[u64]>)
    ensures
        key_views(slices@) == owned_views(keys@),
{
    let mut slices: Vec<&[u64]> = Vec::new();
    let mut i: usize = 0;
    while i < keys.len()
        invariant
            i <= keys.len(),
            slices@.len() == i,
            forall|j: int| 0 <= j < i ==> (#[trigger] slices@[j])@ == keys@[j]@,
        decreases keys.len() - i,
    {
        slices.push(keys[i].as_slice());
        i += 1;
    }
    assert(key_views(slices@) =~= owned_views(keys@));
    slices
}

/// Tells whether `key` falls under at least one of `prefixes`.
pub fn matches_any_prefix(key: &[u64], prefixes: &[&[u64]]) -> (found: bool)
    ensures
        found == matches_any(key_views(prefixes@), key@),
{
    let mut i: usize = 0;
    while i < prefixes.len()
        invariant
            i <= prefixes.len(),
            forall|j: int| 0 <= j < i ==> !(#[trigger] key_views(prefixes@)[j]).is_prefix_of(key@),
        decreases prefixes.len() - i,
    {
        if starts_with(key, prefixes[i]) {
            assert(key_views(prefixes@)[i as int] == prefixes@[i as int]@);
            return true;
        }
        assert(key_views(prefixes@)[i as int] == prefixes@[i as int]@);
        i += 1;
    }
    false
}

/// Every key falls under itself, and under each of its own leading parts.
pub proof fn lemma_prefix_of_itself(key: Seq<u64>, len: int)
    requires
        0 <= len <= key.len(),
    ensures
        key.is_prefix_of(key),
        key.take(len).is_prefix_of(key),
        matches_any(seq![key], key),
        matches_any(seq![key.take(len)], key),
{
    assert(key.subrange(0, key.len() as int) =~= key);
    assert(seq![key][0] == key);
    assert(seq![key.take(len)][0] == key.take(len));
}

/// What falls under a key also falls under every prefix of that key.
pub proof fn lemma_prefix_chain(shorter: Seq<u64>, longer: Seq<u64>, key: Seq<u64>)
    requires
        shorter.is_prefix_of(longer),
        longer.is_prefix_of(key),
    ensures
        shorter.is_prefix_of(key),
{
    assert(shorter =~= key.subrange(0, shorter.len() as int));
}

} // verus!
