//! A map keyed by addresses that keeps its entries in insertion order.

use vstd::prelude::*;

use crate::types::{Address, Balance};

verus! {

/// A map from addresses to values, held as a list of entries in the order
/// the keys were first inserted; each key occurs once.
#[derive(Debug)]
pub struct AddressMap<V> {
    pub entries: Vec<(Address, V)>,
}

impl<V: Copy> AddressMap<V> {
    /// The value stored under each key.
    pub open spec fn view(&self) -> Map<Address, V> {
        Map::new(
            |k: Address| exists|i: int| 0 <= i < self.entries@.len() && self.entries@[i].0 == k,
            |k: Address|
                self.entries@[choose|i: int| 0 <= i < self.entries@.len() && self.entries@[i].0 == k].1,
        )
    }

    /// Each key occurs once.
    pub open spec fn wf(&self) -> bool {
        forall|i: int, j: int|
            0 <= i < j < self.entries@.len() ==> self.entries@[i].0 != self.entries@[j].0
    }

    /// The position of a key, when present.
    pub proof fn lemma_index(&self, i: int)
        requires
            self.wf(),
            0 <= i < self.entries@.len(),
        ensures
            self.view().contains_key(self.entries@[i].0),
            self.view()[self.entries@[i].0] == self.entries@[i].1,
    {
        let k = self.entries@[i].0;
        assert(exists|j: int| 0 <= j < self.entries@.len() && self.entries@[j].0 == k);
        let c = choose|j: int| 0 <= j < self.entries@.len() && self.entries@[j].0 == k;
        assert(c == i);
    }

    /// An empty map.
    pub fn new() -> (r: Self)
        ensures
            r.wf(),
            r.view() == Map::<Address, V>::empty(),
            r.entries@.len() == 0,
    {
        let r = AddressMap { entries: Vec::new() };
        assert(r.view() =~= Map::<Address, V>::empty());
        r
    }

    /// The position of a key in the list of entries.
    pub fn position(&self, key: Address) -> (r: Option<usize>)
        requires
            self.wf(),
        ensures
            match r {
                Some(i) => i < self.entries@.len() && self.entries@[i as int].0 == key,
                None => !self.view().contains_key(key),
            },
    {
        let mut i: usize = 0;
        while i < self.entries.len()
            invariant
                i <= self.entries@.len(),
                forall|j: int| 0 <= j < i ==> self.entries@[j].0 != key,
            decreases self.entries@.len() - i,
        {
            if self.entries[i].0 == key {
                return Some(i);
            }
            i += 1;
        }
        None
    }

    /// The value stored under a key.
    pub fn get(&self, key: Address) -> (r: Option<V>)
        requires
            self.wf(),
        ensures
            r == if self.view().contains_key(key) {
                Some(self.view()[key])
            } else {
                None::<V>
            },
    {
        match self.position(key) {
            Some(i) => {
                proof {
                    self.lemma_index(i as int);
                }
                Some(self.entries[i].1)
            },
            None => None,
        }
    }

    /// Stores a value under a key, replacing the former one.
    pub fn set(&mut self, key: Address, value: V)
        requires
            old(self).wf(),
        ensures
            final(self).wf(),
            final(self).view() == old(self).view().insert(key, value),
            old(self).view().contains_key(key) ==> final(self).entries@ == old(self).entries@.update(
                key_index(old(self).entries@, key),
                (key, value),
            ),
            !old(self).view().contains_key(key) ==> final(self).entries@ == old(self).entries@.push((key, value)),
    {
        let ghost old_self = *self;
        match self.position(key) {
            Some(i) => {
                self.entries.set(i, (key, value));
                proof {
                    old_self.lemma_index(i as int);
                    old_self.lemma_index_of_key(i as int);
                    assert forall|k: Address| #[trigger]
                        self.view().contains_key(k) == old_self.view().insert(
                            key,
                            value,
                        ).contains_key(k) by {
                        if old_self.view().contains_key(k) {
                            let c = choose|j: int|
                                0 <= j < old_self.entries@.len() && old_self.entries@[j].0 == k;
                            assert(self.entries@[c].0 == k);
                        }
                        if self.view().contains_key(k) {
                            let c = choose|j: int|
                                0 <= j < self.entries@.len() && self.entries@[j].0 == k;
                            assert(old_self.entries@[c].0 == k || c == i);
                        }
                    }
                    assert forall|k: Address| #[trigger]
                        self.view().contains_key(k) implies self.view()[k] == old_self.view().insert(
                            key,
                            value,
                        )[k] by {
                        let c = choose|j: int|
                            0 <= j < self.entries@.len() && self.entries@[j].0 == k;
                        self.lemma_index(c);
                        if k != key {
                            old_self.lemma_index(c);
                        }
                    }
                    assert(self.view() =~= old_self.view().insert(key, value));
                }
            },
            None => {
                self.entries.push((key, value));
                proof {
                    let n = old_self.entries@.len() as int;
                    assert forall|k: Address| #[trigger]
                        self.view().contains_key(k) == old_self.view().insert(
                            key,
                            value,
                        ).contains_key(k) by {
                        if old_self.view().contains_key(k) {
                            let c = choose|j: int|
                                0 <= j < old_self.entries@.len() && old_self.entries@[j].0 == k;
                            assert(self.entries@[c].0 == k);
                        }
                        if k == key {
                            assert(self.entries@[n].0 == k);
                        }
                        if self.view().contains_key(k) {
                            let c = choose|j: int|
                                0 <= j < self.entries@.len() && self.entries@[j].0 == k;
                            assert(c == n || old_self.entries@[c].0 == k);
                        }
                    }
                    assert forall|k: Address| #[trigger]
                        self.view().contains_key(k) implies self.view()[k] == old_self.view().insert(
                            key,
                            value,
                        )[k] by {
                        let c = choose|j: int|
                            0 <= j < self.entries@.len() && self.entries@[j].0 == k;
                        self.lemma_index(c);
                        if k != key {
                            old_self.lemma_index(c);
                        }
                    }
                    assert(self.view() =~= old_self.view().insert(key, value));
                }
            },
        }
    }

    /// The position of a key present in the list.
    pub proof fn lemma_index_of_key(&self, i: int)
        requires
            self.wf(),
            0 <= i < self.entries@.len(),
        ensures
            key_index(self.entries@, self.entries@[i].0) == i,
    {
        let k = self.entries@[i].0;
        assert(exists|j: int| 0 <= j < self.entries@.len() && self.entries@[j].0 == k);
    }
}

/// Extracts the position of a key from a list of entries.
pub open spec fn key_index<V>(entries: Seq<(Address, V)>, key: Address) -> int {
    choose|i: int| 0 <= i < entries.len() && entries[i].0 == key
}

} // verus!

verus! {

/// The sum of the values of a list of balance entries.
pub open spec fn sum_values(entries: Seq<(Address, Balance)>) -> nat
    decreases entries.len(),
{
    if entries.len() == 0 {
        0
    } else {
        sum_values(entries.drop_last()) + entries.last().1.value()
    }
}

/// Replacing one value changes the sum by the difference.
pub proof fn lemma_sum_update(entries: Seq<(Address, Balance)>, i: int, e: (Address, Balance))
    requires
        0 <= i < entries.len(),
    ensures
        sum_values(entries.update(i, e)) + entries[i].1.value() == sum_values(entries)
            + e.1.value(),
    decreases entries.len(),
{
    let u = entries.update(i, e);
    if i == entries.len() - 1 {
        assert(u.drop_last() =~= entries.drop_last());
    } else {
        lemma_sum_update(entries.drop_last(), i, e);
        assert(u.drop_last() =~= entries.drop_last().update(i, e));
    }
}

/// Adding an entry adds its value to the sum.
pub proof fn lemma_sum_push(entries: Seq<(Address, Balance)>, e: (Address, Balance))
    ensures
        sum_values(entries.push(e)) == sum_values(entries) + e.1.value(),
{
    assert(entries.push(e).drop_last() =~= entries);
}

/// No value exceeds the sum.
pub proof fn lemma_value_le_sum(entries: Seq<(Address, Balance)>, i: int)
    requires
        0 <= i < entries.len(),
    ensures
        entries[i].1.value() <= sum_values(entries),
    decreases entries.len(),
{
    if i < entries.len() - 1 {
        lemma_value_le_sum(entries.drop_last(), i);
    }
}

} // verus!

verus! {

impl<V: Copy> AddressMap<V> {
    /// A copy of the map.
    pub fn duplicate(&self) -> (r: AddressMap<V>)
        ensures
            r.entries@ == self.entries@,
    {
        let mut entries: Vec<(Address, V)> = Vec::new();
        let mut i: usize = 0;
        while i < self.entries.len()
            invariant
                i <= self.entries@.len(),
                entries@ == self.entries@.subrange(0, i as int),
            decreases self.entries@.len() - i,
        {
            entries.push(self.entries[i]);
            i += 1;
            assert(entries@ =~= self.entries@.subrange(0, i as int));
        }
        assert(entries@ =~= self.entries@);
        AddressMap { entries }
    }
}

/// The amount a map of balances holds for an address: zero when absent.
pub open spec fn amount_of(m: Map<Address, Balance>, a: Address) -> nat {
    if m.contains_key(a) {
        m[a].value()
    } else {
        0
    }
}

/// The amounts a map of balances holds.
pub open spec fn amounts(m: Map<Address, Balance>) -> Map<Address, nat> {
    Map::new(|a: Address| m.contains_key(a), |a: Address| m[a].value())
}

/// The amount a map of amounts holds for an address: zero when absent.
pub open spec fn get0(m: Map<Address, nat>, a: Address) -> nat {
    if m.contains_key(a) {
        m[a]
    } else {
        0
    }
}

} // verus!
