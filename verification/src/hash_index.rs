//! A map from hashes to values, kept as a list in which no hash occurs twice.
use vstd::prelude::*;
use crate::types::CryptoHash;

verus! {

/// A map from hashes to values.
#[derive(Debug)]
pub struct HashIndex<V> {
    entries: Vec<(CryptoHash, V)>,
}

/// Where a hash stands in a list of entries.
spec fn position<V>(entries: Seq<(CryptoHash, V)>, key: CryptoHash) -> int {
    choose|i: int| 0 <= i < entries.len() && (#[trigger] entries[i]).0 == key
}

/// Some entry of the list is for the hash.
spec fn occurs<V>(entries: Seq<(CryptoHash, V)>, key: CryptoHash) -> bool {
    exists|i: int| 0 <= i < entries.len() && (#[trigger] entries[i]).0 == key
}

/// No hash occurs twice in the list.
spec fn distinct<V>(entries: Seq<(CryptoHash, V)>) -> bool {
    forall|i: int, j: int|
        0 <= i < j < entries.len() ==> (#[trigger] entries[i]).0 != (#[trigger] entries[j]).0
}

/// The map that a list of entries stands for.
spec fn as_map<V>(entries: Seq<(CryptoHash, V)>) -> Map<CryptoHash, V> {
    Map::new(|k: CryptoHash| occurs(entries, k), |k: CryptoHash| entries[position(entries, k)].1)
}

impl<V> View for HashIndex<V> {
    type V = Map<CryptoHash, V>;

    closed spec fn view(&self) -> Map<CryptoHash, V> {
        as_map(self.entries@)
    }
}

/// A list in which no hash occurs twice has as many entries as its map has keys.
proof fn lemma_size<V>(entries: Seq<(CryptoHash, V)>)
    requires
        distinct(entries),
    ensures
        as_map(entries).dom().finite(),
        as_map(entries).dom().len() == entries.len(),
    decreases entries.len(),
{
    if entries.len() == 0 {
        assert(as_map(entries).dom() =~= Set::empty());
    } else {
        let rest = entries.drop_last();
        let key = entries.last().0;
        lemma_size(rest);
        assert(as_map(entries).dom() =~= as_map(rest).dom().insert(key)) by {
            assert forall|k: CryptoHash| occurs(entries, k) implies occurs(rest, k) || k
                == key by {
                let i = position(entries, k);
                if i < rest.len() {
                    assert(rest[i].0 == k);
                }
            }
            assert forall|k: CryptoHash| occurs(rest, k) || k == key implies occurs(
                entries,
                k,
            ) by {
                if k == key {
                    assert(entries[entries.len() - 1].0 == k);
                } else {
                    let i = position(rest, k);
                    assert(entries[i].0 == k);
                }
            }
        }
        assert(!occurs(rest, key)) by {
            if occurs(rest, key) {
                let i = position(rest, key);
                assert(entries[i].0 == entries[entries.len() - 1].0);
            }
        }
    }
}

impl<V> HashIndex<V> {
    #[verifier::type_invariant]
    spec fn keys_are_distinct(self) -> bool {
        distinct(self.entries@)
    }

    /// A map with no entry.
    pub fn new() -> (r: HashIndex<V>)
        ensures
            r@ == Map::<CryptoHash, V>::empty(),
    {
        let r = HashIndex { entries: Vec::new() };
        assert(as_map(r.entries@) =~= Map::<CryptoHash, V>::empty());
        r
    }

    /// How many hashes have a value.
    pub fn len(&self) -> (r: usize)
        ensures
            self@.dom().finite(),
            r == self@.dom().len(),
    {
        proof {
            use_type_invariant(self);
            lemma_size(self.entries@);
        }
        self.entries.len()
    }

    fn find(&self, key: &CryptoHash) -> (r: Option<usize>)
        ensures
            match r {
                Some(i) => i < self.entries@.len() && self.entries@[i as int].0 == *key
                    && position(self.entries@, *key) == i && occurs(self.entries@, *key),
                None => !occurs(self.entries@, *key),
            },
    {
        proof {
            use_type_invariant(self);
        }
        let mut i: usize = 0;
        while i < self.entries.len()
            invariant
                i <= self.entries@.len(),
                distinct(self.entries@),
                forall|j: int| 0 <= j < i ==> (#[trigger] self.entries@[j]).0 != *key,
            decreases self.entries@.len() - i,
        {
            if self.entries[i].0 == *key {
                assert(occurs(self.entries@, *key));
                return Some(i);
            }
            i += 1;
        }
        None
    }

    /// The value of a hash.
    pub fn get(&self, key: &CryptoHash) -> (r: Option<&V>)
        ensures
            match r {
                Some(value) => self@.contains_key(*key) && self@[*key] == *value,
                None => !self@.contains_key(*key),
            },
    {
        match self.find(key) {
            Some(i) => Some(&self.entries[i].1),
            None => None,
        }
    }

    /// Tells whether the hash has a value.
    pub fn contains_key(&self, key: &CryptoHash) -> (r: bool)
        ensures
            r == self@.contains_key(*key),
    {
        self.find(key).is_some()
    }

    /// Gives the hash a value in place of the one it had, if any.
    pub fn insert(&mut self, key: CryptoHash, value: V)
        ensures
            final(self)@ == old(self)@.insert(key, value),
    {
        let found = self.find(&key);
        proof {
            use_type_invariant(&*self);
        }
        let ghost before = self.entries@;
        let mut entries: Vec<(CryptoHash, V)> = Vec::new();
        std::mem::swap(&mut entries, &mut self.entries);
        match found {
            Some(i) => {
                entries.set(i, (key, value));
                proof {
                    let after = entries@;
                    assert forall|k: CryptoHash| occurs(before, k) <==> occurs(after, k) by {
                        if occurs(before, k) {
                            let j = position(before, k);
                            assert(after[j].0 == k);
                        }
                        if occurs(after, k) {
                            let j = position(after, k);
                            assert(before[j].0 == k);
                        }
                    }
                    assert forall|k: CryptoHash| #[trigger] occurs(after, k) implies position(
                        after,
                        k,
                    ) == position(before, k) by {
                        let j = position(after, k);
                        let l = position(before, k);
                        assert(after[j].0 == after[l].0);
                    }
                    assert(as_map(after) =~= as_map(before).insert(key, value));
                }
            },
            None => {
                entries.push((key, value));
                proof {
                    let after = entries@;
                    assert forall|k: CryptoHash| occurs(after, k) <==> occurs(before, k) || k
                        == key by {
                        if occurs(before, k) {
                            let j = position(before, k);
                            assert(after[j].0 == k);
                        }
                        if occurs(after, k) {
                            let j = position(after, k);
                            if j < before.len() {
                                assert(before[j].0 == k);
                            }
                        }
                        assert(after[before.len() as int].0 == key);
                    }
                    assert forall|k: CryptoHash| #[trigger] occurs(before, k) implies position(
                        after,
                        k,
                    ) == position(before, k) by {
                        let l = position(before, k);
                        assert(after[l].0 == k);
                        let j = position(after, k);
                        assert(after[j].0 == k);
                    }
                    assert(as_map(after) =~= as_map(before).insert(key, value));
                }
            },
        }
        self.entries = entries;
    }

    /// Takes the hash and its value out of the map.
    pub fn remove(&mut self, key: &CryptoHash) -> (r: Option<V>)
        ensures
            final(self)@ == old(self)@.remove(*key),
            match r {
                Some(value) => old(self)@.contains_key(*key) && old(self)@[*key] == value,
                None => !old(self)@.contains_key(*key),
            },
    {
        let found = self.find(key);
        proof {
            use_type_invariant(&*self);
        }
        let ghost before = self.entries@;
        match found {
            Some(i) => {
                let mut entries: Vec<(CryptoHash, V)> = Vec::new();
                std::mem::swap(&mut entries, &mut self.entries);
                let (_, value) = entries.remove(i);
                proof {
                    let after = entries@;
                    assert forall|j: int| 0 <= j < after.len() implies #[trigger] after[j]
                        == before[if j < i { j } else { j + 1 }] by {}
                    assert forall|k: CryptoHash| occurs(after, k) <==> occurs(before, k) && k
                        != *key by {
                        if occurs(before, k) && k != *key {
                            let j = position(before, k);
                            assert(after[if j < i { j } else { j - 1 }].0 == k);
                        }
                        if occurs(after, k) {
                            let j = position(after, k);
                            let l = if j < i { j } else { j + 1 };
                            assert(before[l].0 == k);
                        }
                    }
                    assert forall|k: CryptoHash| #[trigger] occurs(after, k) implies after[position(
                        after,
                        k,
                    )] == before[position(before, k)] by {
                        let j = position(after, k);
                        let l = if j < i { j } else { j + 1 };
                        assert(before[l].0 == k);
                        assert(before[position(before, k)].0 == before[l].0);
                    }
                    assert(as_map(after) =~= as_map(before).remove(*key));
                    assert(distinct(after)) by {
                        assert forall|a: int, b: int| 0 <= a < b < after.len() implies (
                        #[trigger] after[a]).0 != (#[trigger] after[b]).0 by {
                            let la = if a < i { a } else { a + 1 };
                            let lb = if b < i { b } else { b + 1 };
                            assert(before[la].0 != before[lb].0);
                        }
                    }
                }
                self.entries = entries;
                Some(value)
            },
            None => {
                assert(as_map(before).remove(*key) =~= as_map(before));
                None
            },
        }
    }
}

} // verus!
