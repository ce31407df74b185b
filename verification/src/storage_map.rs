//! A small map that remembers the order in which its keys were first inserted.

use vstd::prelude::*;

verus! {

/// A key of a [`StorageMap`]: a value that can be compared with another.
pub trait StorageKey: Copy {
    /// Whether the two keys are the same key.
    fn same_key(&self, other: &Self) -> (same: bool)
        ensures
            same == (*self == *other),
    ;
}

/// A finite map from keys to values, walked in the order of first insertion. A look-up walks the
/// entries: a pool works on its markets, and on the positions of the accounts that a call is about.
pub struct StorageMap<K: StorageKey, V: Copy> {
    entries: Vec<(K, V)>,
}

impl<K: StorageKey, V: Copy> View for StorageMap<K, V> {
    type V = Map<K, V>;

    closed spec fn view(&self) -> Map<K, V> {
        map_of(self.entries@)
    }
}

/// The keys of a list of entries, in order.
spec fn keys_of<K, V>(entries: Seq<(K, V)>) -> Seq<K> {
    entries.map_values(|entry: (K, V)| entry.0)
}

/// The map that a list of entries stands for.
spec fn map_of<K, V>(entries: Seq<(K, V)>) -> Map<K, V> {
    Map::new(
        |key: K| keys_of(entries).contains(key),
        |key: K| entries[keys_of(entries).index_of(key)].1,
    )
}

/// An entry of a list without repeated keys is the value of its key.
proof fn lemma_entry_in_map<K, V>(entries: Seq<(K, V)>, i: int)
    requires
        keys_of(entries).no_duplicates(),
        0 <= i < entries.len(),
    ensures
        map_of(entries).contains_key(entries[i].0),
        map_of(entries)[entries[i].0] == entries[i].1,
{
    let keys = keys_of(entries);
    assert(keys[i] == entries[i].0);
    assert(keys.contains(entries[i].0));
    let j = keys.index_of(entries[i].0);
    assert(keys[j] == keys[i]);
}

impl<K: StorageKey, V: Copy> StorageMap<K, V> {
    /// No key occurs twice.
    #[verifier::type_invariant]
    spec fn distinct_keys(self) -> bool {
        keys_of(self.entries@).no_duplicates()
    }

    /// The keys in the order in which the map is walked.
    pub closed spec fn order(self) -> Seq<K> {
        keys_of(self.entries@)
    }

    /// An empty map.
    pub fn new() -> (map: Self)
        ensures
            map@ == Map::<K, V>::empty(),
            map.order() == Seq::<K>::empty(),
    {
        let map = StorageMap { entries: Vec::new() };
        assert(map@ =~= Map::<K, V>::empty());
        assert(map.order() =~= Seq::<K>::empty());
        map
    }

    /// The number of keys.
    pub fn len(&self) -> (len: usize)
        ensures
            len == self.order().len(),
            self.order().no_duplicates(),
            forall|key: K| #[trigger] self@.contains_key(key) <==> self.order().contains(key),
    {
        proof {
            use_type_invariant(self);
        }
        self.entries.len()
    }

    /// The key at a place in the walk.
    pub fn key_at(&self, i: usize) -> (key: K)
        requires
            i < self.order().len(),
        ensures
            key == self.order()[i as int],
    {
        self.entries[i].0
    }

    /// The value of a key, if the map holds one.
    pub fn get(&self, key: &K) -> (value: Option<V>)
        ensures
            value == (if self@.contains_key(*key) { Some(self@[*key]) } else { None }),
    {
        proof {
            use_type_invariant(self);
        }
        let mut i: usize = 0;
        while i < self.entries.len()
            invariant
                i <= self.entries.len(),
                keys_of(self.entries@).no_duplicates(),
                forall|j: int| 0 <= j < i ==> (#[trigger] self.entries@[j]).0 != *key,
            decreases self.entries.len() - i,
        {
            let entry = self.entries[i];
            if entry.0.same_key(key) {
                proof {
                    lemma_entry_in_map(self.entries@, i as int);
                }
                return Some(entry.1);
            }
            i += 1;
        }
        assert(!keys_of(self.entries@).contains(*key));
        None
    }

    /// Whether the map holds a value for a key.
    pub fn contains_key(&self, key: &K) -> (found: bool)
        ensures
            found == self@.contains_key(*key),
    {
        self.get(key).is_some()
    }

    /// Another map with the same keys, values and order.
    pub fn copied(&self) -> (map: Self)
        ensures
            map@ == self@,
            map.order() == self.order(),
    {
        proof {
            use_type_invariant(self);
        }
        let mut entries: Vec<(K, V)> = Vec::new();
        let mut i: usize = 0;
        while i < self.entries.len()
            invariant
                i <= self.entries.len(),
                entries@ == self.entries@.take(i as int),
            decreases self.entries.len() - i,
        {
            entries.push(self.entries[i]);
            i += 1;
            assert(entries@ =~= self.entries@.take(i as int));
        }
        assert(self.entries@.take(i as int) =~= self.entries@);
        StorageMap { entries }
    }

    /// Gives a key a value: a new key goes to the end of the walk, a known key keeps its place.
    pub fn insert(&mut self, key: K, value: V)
        ensures
            final(self)@ == old(self)@.insert(key, value),
            final(self).order() == (if old(self)@.contains_key(key) {
                old(self).order()
            } else {
                old(self).order().push(key)
            }),
    {
        proof {
            use_type_invariant(&*self);
        }
        let mut entries: Vec<(K, V)> = Vec::new();
        std::mem::swap(&mut entries, &mut self.entries);
        let ghost before = entries@;
        let mut i: usize = 0;
        while i < entries.len()
            invariant
                i <= entries.len(),
                entries@ == before,
                before == old(self).entries@,
                keys_of(before).no_duplicates(),
                forall|j: int| 0 <= j < i ==> (#[trigger] before[j]).0 != key,
            decreases entries.len() - i,
        {
            if entries[i].0.same_key(&key) {
                entries[i] = (key, value);
                proof {
                    lemma_entry_in_map(before, i as int);
                    assert(keys_of(entries@) =~= keys_of(before));
                    lemma_entry_in_map(entries@, i as int);
                    assert forall|other: K| keys_of(before).contains(other) && other != key
                        implies map_of(entries@)[other] == map_of(before)[other] by {
                        let j = keys_of(before).index_of(other);
                        assert(before[j].0 == other);
                        assert(entries@[j] == before[j]);
                    }
                    assert(map_of(entries@) =~= map_of(before).insert(key, value));
                }
                self.entries = entries;
                return;
            }
            i += 1;
        }
        entries.push((key, value));
        proof {
            assert(!keys_of(before).contains(key));
            assert(keys_of(entries@) =~= keys_of(before).push(key));
            lemma_entry_in_map(entries@, before.len() as int);
            assert forall|other: K|
                #[trigger] map_of(entries@).contains_key(other) <==> map_of(before).insert(
                    key,
                    value,
                ).contains_key(other) by {
                if keys_of(entries@).contains(other) && other != key {
                    let j = keys_of(entries@).index_of(other);
                    assert(keys_of(before)[j] == other);
                }
                if keys_of(before).contains(other) {
                    let j = keys_of(before).index_of(other);
                    assert(keys_of(entries@)[j] == other);
                }
            }
            assert forall|other: K| #[trigger]
                map_of(entries@).contains_key(other) && other != key implies map_of(entries@)[other]
                == map_of(before)[other] by {
                let j = keys_of(before).index_of(other);
                assert(before[j].0 == other);
                assert(entries@[j] == before[j]);
                lemma_entry_in_map(entries@, j);
            }
            assert(map_of(entries@) =~= map_of(before).insert(key, value));
        }
        self.entries = entries;
    }

    /// Takes a key and its value out of the map.
    pub fn remove(&mut self, key: &K)
        ensures
            final(self)@ == old(self)@.remove(*key),
            final(self).order() == old(self).order().filter(|other: K| other != *key),
    {
        proof {
            use_type_invariant(&*self);
        }
        let ghost before = self.entries@;
        let mut kept: Vec<(K, V)> = Vec::new();
        let mut i: usize = 0;
        let ghost stays = |other: K| other != *key;
        assert(keys_of(kept@) =~= keys_of(before).take(0).filter(stays)) by {
            reveal(Seq::filter);
        }
        while i < self.entries.len()
            invariant
                i <= self.entries.len(),
                self.entries@ == before,
                stays == (|other: K| other != *key),
                keys_of(before).no_duplicates(),
                keys_of(kept@) == keys_of(before).take(i as int).filter(stays),
                keys_of(kept@).no_duplicates(),
                forall|j: int|
                    0 <= j < kept.len() ==> #[trigger] before.take(i as int).contains(kept@[j]),
                forall|j: int|
                    0 <= j < i && (#[trigger] before[j]).0 != *key ==> kept@.contains(before[j]),
                forall|j: int| 0 <= j < kept.len() ==> (#[trigger] kept@[j]).0 != *key,
            decreases self.entries.len() - i,
        {
            let entry = self.entries[i];
            let ghost kept_before = kept@;
            if !entry.0.same_key(key) {
                kept.push(entry);
            }
            proof {
                reveal(Seq::filter);
                assert(keys_of(before).take(i + 1).drop_last() =~= keys_of(before).take(i as int));
                assert(keys_of(before)[i as int] == entry.0);
                assert forall|j: int| 0 <= j < kept_before.len() implies before.take(
                    i + 1,
                ).contains(#[trigger] kept_before[j]) && kept_before[j].0 != entry.0 by {
                    assert(before.take(i as int).contains(kept_before[j]));
                    let m = before.take(i as int).index_of(kept_before[j]);
                    assert(before.take(i + 1)[m] == kept_before[j]);
                    assert(keys_of(before)[m] == kept_before[j].0);
                }
                assert(before.take(i + 1)[i as int] == entry);
                if entry.0 != *key {
                    assert(kept@ =~= kept_before.push(entry));
                    assert(keys_of(kept@) =~= keys_of(kept_before).push(entry.0));
                    assert(kept@[kept_before.len() as int] == entry);
                    assert forall|j: int| 0 <= j < i && (#[trigger] before[j]).0 != *key implies
                        kept@.contains(before[j]) by {
                        let m = kept_before.index_of(before[j]);
                        assert(kept@[m] == before[j]);
                    }
                }
            }
            i += 1;
        }
        proof {
            assert(keys_of(before).take(i as int) =~= keys_of(before));
            assert(before.take(i as int) =~= before);
            assert forall|other: K|
                keys_of(kept@).contains(other) <==> keys_of(before).contains(other) && other
                    != *key by {
                if keys_of(kept@).contains(other) {
                    let m = keys_of(kept@).index_of(other);
                    assert(before.contains(kept@[m]));
                    let j = before.index_of(kept@[m]);
                    assert(keys_of(before)[j] == other);
                }
                if keys_of(before).contains(other) && other != *key {
                    let j = keys_of(before).index_of(other);
                    assert(before[j].0 == other);
                    assert(kept@.contains(before[j]));
                    let m = kept@.index_of(before[j]);
                    assert(keys_of(kept@)[m] == other);
                }
            }
            assert forall|other: K| keys_of(before).contains(other) && other != *key implies
                map_of(kept@)[other] == map_of(before)[other] by {
                let j = keys_of(before).index_of(other);
                assert(before[j].0 == other);
                assert(kept@.contains(before[j]));
                let m = kept@.index_of(before[j]);
                lemma_entry_in_map(kept@, m);
            }
            assert(map_of(kept@) =~= map_of(before).remove(*key));
        }
        self.entries = kept;
    }
}

}
