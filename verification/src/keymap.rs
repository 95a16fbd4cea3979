//! A map from keys to values, kept as a list of slots in which no key occurs
//! twice.

use vstd::prelude::*;
use crate::key::same_key;

verus! {

/// One key with the value stored under it.
pub struct Slot<V> {
    pub key: Vec<u64>,
    pub value: V,
}

/// Whether some slot of `slots` is stored under `key`.
spec fn has_key<V>(slots: Seq<Slot<V>>, key: Seq<u64>) -> bool {
    exists|i: int| 0 <= i < slots.len() && (#[trigger] slots[i]).key@ == key
}

/// A position of `key` among `slots`, where it has one.
spec fn slot_of<V>(slots: Seq<Slot<V>>, key: Seq<u64>) -> int {
    choose|i: int| 0 <= i < slots.len() && (#[trigger] slots[i]).key@ == key
}

/// No two slots share a key.
spec fn distinct_keys<V>(slots: Seq<Slot<V>>) -> bool {
    forall|i: int, j: int|
        0 <= i < j < slots.len() ==> (#[trigger] slots[i]).key@ != (#[trigger] slots[j]).key@
}

/// The map that a list of slots stands for.
spec fn slots_map<V>(slots: Seq<Slot<V>>) -> Map<Seq<u64>, V> {
    Map::new(|k: Seq<u64>| has_key(slots, k), |k: Seq<u64>| slots[slot_of(slots, k)].value)
}

/// With distinct keys, each slot is the one found under its own key.
proof fn lemma_slot_found<V>(slots: Seq<Slot<V>>, i: int)
    requires
        distinct_keys(slots),
        0 <= i < slots.len(),
    ensures
        has_key(slots, slots[i].key@),
        slot_of(slots, slots[i].key@) == i,
        slots_map(slots).contains_key(slots[i].key@),
        slots_map(slots)[slots[i].key@] == slots[i].value,
{
    let k = slots[i].key@;
    assert(has_key(slots, k));
    let j = slot_of(slots, k);
    assert(0 <= j < slots.len() && slots[j].key@ == k);
    if j < i {
        assert(slots[j].key@ != slots[i].key@);
    } else if i < j {
        assert(slots[i].key@ != slots[j].key@);
    }
}

/// Taking a slot out removes exactly its key from the map.
proof fn lemma_slot_removed<V>(slots: Seq<Slot<V>>, i: int)
    requires
        distinct_keys(slots),
        0 <= i < slots.len(),
    ensures
        distinct_keys(slots.remove(i)),
        slots_map(slots.remove(i)) == slots_map(slots).remove(slots[i].key@),
{
    let rest = slots.remove(i);
    let gone = slots[i].key@;
    assert forall|a: int, b: int| 0 <= a < b < rest.len() implies (#[trigger] rest[a]).key@ != (
    #[trigger] rest[b]).key@ by {
        let a0 = if a < i { a } else { a + 1 };
        let b0 = if b < i { b } else { b + 1 };
        assert(rest[a] == slots[a0]);
        assert(rest[b] == slots[b0]);
        assert(slots[a0].key@ != slots[b0].key@);
    }
    assert forall|k: Seq<u64>| has_key(rest, k) <==> (has_key(slots, k) && k != gone) by {
        if has_key(rest, k) {
            let a = slot_of(rest, k);
            let a0 = if a < i { a } else { a + 1 };
            assert(rest[a] == slots[a0]);
            assert(slots[a0].key@ == k);
            if a0 < i {
                assert(slots[a0].key@ != slots[i].key@);
            } else {
                assert(slots[i].key@ != slots[a0].key@);
            }
        }
        if has_key(slots, k) && k != gone {
            let b = slot_of(slots, k);
            assert(b != i);
            let b1 = if b < i { b } else { b - 1 };
            assert(rest[b1] == slots[b]);
            assert(rest[b1].key@ == k);
        }
    }
    assert forall|k: Seq<u64>| has_key(rest, k) implies slots_map(rest)[k] == slots_map(slots)[k] by {
        let a = slot_of(rest, k);
        let a0 = if a < i { a } else { a + 1 };
        assert(rest[a] == slots[a0]);
        lemma_slot_found(slots, a0);
    }
    assert(slots_map(rest) =~= slots_map(slots).remove(gone));
}

/// Adding a slot under a key that is not there yet adds exactly that entry.
proof fn lemma_slot_added<V>(slots: Seq<Slot<V>>, slot: Slot<V>)
    requires
        distinct_keys(slots),
        !has_key(slots, slot.key@),
    ensures
        distinct_keys(slots.push(slot)),
        slots_map(slots.push(slot)) == slots_map(slots).insert(slot.key@, slot.value),
{
    let more = slots.push(slot);
    let n = slots.len() as int;
    assert forall|a: int, b: int| 0 <= a < b < more.len() implies (#[trigger] more[a]).key@ != (
    #[trigger] more[b]).key@ by {
        assert(more[a] == slots[a]);
        if b < n {
            assert(more[b] == slots[b]);
            assert(slots[a].key@ != slots[b].key@);
        } else {
            assert(more[b] == slot);
            assert(slots[a].key@ != slot.key@);
        }
    }
    assert(more[n] == slot);
    assert forall|k: Seq<u64>| has_key(more, k) <==> (has_key(slots, k) || k == slot.key@) by {
        if has_key(more, k) {
            let a = slot_of(more, k);
            if a < n {
                assert(more[a] == slots[a]);
            }
        }
        if has_key(slots, k) {
            let b = slot_of(slots, k);
            assert(more[b] == slots[b]);
        }
    }
    assert forall|k: Seq<u64>| has_key(more, k) implies slots_map(more)[k] == slots_map(
        slots,
    ).insert(slot.key@, slot.value)[k] by {
        let a = slot_of(more, k);
        lemma_slot_found(more, a);
        if a < n {
            assert(more[a] == slots[a]);
            lemma_slot_found(slots, a);
        }
    }
    assert(slots_map(more) =~= slots_map(slots).insert(slot.key@, slot.value));
}

/// A map keyed by segment sequences.
pub struct KeyMap<V> {
    slots: Vec<Slot<V>>,
}

impl<V> View for KeyMap<V> {
    type V = Map<Seq<u64>, V>;

    closed spec fn view(&self) -> Map<Seq<u64>, V> {
        slots_map(self.slots@)
    }
}

impl<V> KeyMap<V> {
    #[verifier::type_invariant]
    spec fn keys_are_distinct(&self) -> bool {
        distinct_keys(self.slots@)
    }

    /// The number of entries.
    pub closed spec fn spec_len(&self) -> nat {
        self.slots@.len()
    }

    /// The key in position `i`.
    pub closed spec fn spec_key(&self, i: int) -> Seq<u64> {
        self.slots@[i].key@
    }

    /// The value in position `i`.
    pub closed spec fn spec_value(&self, i: int) -> V {
        self.slots@[i].value
    }

    /// Every key of the map stands in some position, with the map's value for it.
    pub proof fn lemma_position_of(&self, key: Seq<u64>)
        requires
            self@.contains_key(key),
        ensures
            exists|i: int|
                0 <= i < self.spec_len() && #[trigger] self.spec_key(i) == key
                    && self.spec_value(i) == self@[key],
    {
        let i = slot_of(self.slots@, key);
        assert(0 <= i < self.spec_len() && self.spec_key(i) == key && self.spec_value(i)
            == self@[key]);
    }

    /// An empty map.
    pub fn new() -> (map: Self)
        ensures
            map@ == Map::<Seq<u64>, V>::empty(),
            map.spec_len() == 0,
    {
        let map = KeyMap { slots: Vec::new() };
        assert(map@ =~= Map::<Seq<u64>, V>::empty());
        map
    }

    /// The number of entries.
    pub fn len(&self) -> (n: usize)
        ensures
            n == self.spec_len(),
    {
        self.slots.len()
    }

    /// The key in position `i`.
    pub fn key_at(&self, i: usize) -> (key: &Vec<u64>)
        requires
            i < self.spec_len(),
        ensures
            key@ == self.spec_key(i as int),
            self@.contains_key(key@),
            self@[key@] == self.spec_value(i as int),
    {
        proof {
            use_type_invariant(self);
            lemma_slot_found(self.slots@, i as int);
        }
        &self.slots[i].key
    }

    /// The value in position `i`.
    pub fn value_at(&self, i: usize) -> (value: &V)
        requires
            i < self.spec_len(),
        ensures
            *value == self.spec_value(i as int),
            self@.contains_key(self.spec_key(i as int)),
            self@[self.spec_key(i as int)] == *value,
    {
        proof {
            use_type_invariant(self);
            lemma_slot_found(self.slots@, i as int);
        }
        &self.slots[i].value
    }

    /// The position of `key`, if the map has it.
    pub fn position(&self, key: &[u64]) -> (found: Option<usize>)
        ensures
            match found {
                Some(i) => i < self.spec_len() && self.spec_key(i as int) == key@
                    && self@.contains_key(key@) && self@[key@] == self.spec_value(i as int),
                None => !self@.contains_key(key@),
            },
    {
        let mut i: usize = 0;
        while i < self.slots.len()
            invariant
                i <= self.slots@.len(),
                forall|j: int| 0 <= j < i ==> (#[trigger] self.slots@[j]).key@ != key@,
            decreases self.slots@.len() - i,
        {
            if same_key(self.slots[i].key.as_slice(), key) {
                proof {
                    use_type_invariant(self);
                    lemma_slot_found(self.slots@, i as int);
                }
                return Some(i);
            }
            i += 1;
        }
        None
    }

    /// Whether the map has an entry for `key`.
    pub fn contains_key(&self, key: &[u64]) -> (found: bool)
        ensures
            found == self@.contains_key(key@),
    {
        self.position(key).is_some()
    }

    /// The value stored under `key`.
    pub fn get(&self, key: &[u64]) -> (found: Option<&V>)
        ensures
            match found {
                Some(value) => self@.contains_key(key@) && *value == self@[key@],
                None => !self@.contains_key(key@),
            },
    {
        match self.position(key) {
            Some(i) => Some(&self.slots[i].value),
            None => None,
        }
    }

    /// Moves the slots out and leaves the map empty.
    fn take_slots(&mut self) -> (slots: Vec<Slot<V>>)
        ensures
            slots@ == old(self).slots@,
            final(self).slots@.len() == 0,
    {
        let mut slots: Vec<Slot<V>> = Vec::new();
        std::mem::swap(&mut self.slots, &mut slots);
        slots
    }

    /// Takes out the entry in position `i`; the entries behind it move up by one.
    pub fn remove_at(&mut self, i: usize) -> (slot: Slot<V>)
        requires
            i < old(self).spec_len(),
        ensures
            slot.key@ == old(self).spec_key(i as int),
            slot.value == old(self).spec_value(i as int),
            final(self)@ == old(self)@.remove(slot.key@),
            final(self).spec_len() == old(self).spec_len() - 1,
            forall|j: int|
                0 <= j < i ==> #[trigger] final(self).spec_key(j) == old(self).spec_key(j),
            forall|j: int|
                0 <= j < i ==> #[trigger] final(self).spec_value(j) == old(self).spec_value(j),
            forall|j: int|
                i <= j < final(self).spec_len() ==> #[trigger] final(self).spec_key(j) == old(
                    self,
                ).spec_key(j + 1),
            forall|j: int|
                i <= j < final(self).spec_len() ==> #[trigger] final(self).spec_value(j) == old(
                    self,
                ).spec_value(j + 1),
    {
        proof {
            use_type_invariant(&*self);
            lemma_slot_removed(self.slots@, i as int);
        }
        let mut slots = self.take_slots();
        let slot = slots.remove(i);
        self.slots = slots;
        slot
    }

    /// Stores `value` under `key` and hands back what was stored there before.
    pub fn insert(&mut self, key: Vec<u64>, value: V) -> (before: Option<V>)
        ensures
            final(self)@ == old(self)@.insert(key@, value),
            match before {
                Some(v) => old(self)@.contains_key(key@) && v == old(self)@[key@],
                None => !old(self)@.contains_key(key@),
            },
    {
        let before = match self.position(key.as_slice()) {
            Some(i) => Some(self.remove_at(i).value),
            None => None,
        };
        proof {
            use_type_invariant(&*self);
            assert(!self@.contains_key(key@));
            assert(!has_key(self.slots@, key@));
            lemma_slot_added(self.slots@, Slot { key, value });
            assert(old(self)@.remove(key@).insert(key@, value) =~= old(self)@.insert(key@, value));
        }
        let mut slots = self.take_slots();
        slots.push(Slot { key, value });
        self.slots = slots;
        before
    }

    /// Takes out the entry for `key`, if there is one.
    pub fn remove(&mut self, key: &[u64]) -> (before: Option<V>)
        ensures
            final(self)@ == old(self)@.remove(key@),
            match before {
                Some(v) => old(self)@.contains_key(key@) && v == old(self)@[key@],
                None => !old(self)@.contains_key(key@),
            },
    {
        match self.position(key) {
            Some(i) => Some(self.remove_at(i).value),
            None => {
                assert(self@.remove(key@) =~= self@);
                None
            },
        }
    }
}

} // verus!
