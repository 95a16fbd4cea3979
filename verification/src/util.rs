//! Hashing of key components.

use vstd::prelude::*;
use std::hash::Hash;
use std::hash::Hasher;
use fnv::FnvHasher;

verus! {

/// The segment that a text hashes to: what a fresh `fnv::FnvHasher` holds after
/// the text was fed to it through `Hash`. It depends on the text alone.
pub uninterp spec fn str_segment(text: Seq<char>) -> u64;

/// Feeds `k` through its `Hash` impl to a fresh `fnv::FnvHasher`
/// (`FnvHasher::default`, `Hash::hash`, `Hasher::finish`) and returns what the
/// hasher holds. The result depends on how `K` implements `Hash`, so nothing
/// is claimed of it.
#[verifier::external_body]
pub fn hash_key<K: Hash>(k: K) -> (segment: u64) {
    let mut hash = FnvHasher::default();
    k.hash(&mut hash);
    hash.finish()
}

/// Feeds a text through `Hash` to a fresh `fnv::FnvHasher`, as [`hash_key`]
/// does for any value, and returns what the hasher holds: the FNV-1a hash of
/// the bytes that `str` writes. The same text always gives the same segment.
#[verifier::external_body]
pub(crate) fn hash_str(text: &str) -> (segment: u64)
    ensures
        segment == str_segment(text@),
{
    let mut hash = FnvHasher::default();
    text.hash(&mut hash);
    hash.finish()
}

} // verus!
