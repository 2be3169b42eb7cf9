//! A small map for keys that are compared, not hashed: a list of entries in
//! which no key occurs twice.

use vstd::prelude::*;

verus! {

/// A key of a cache. Two keys are the same key if they have the same identity.
pub trait CacheKey {
    /// What a key is, as a value of mathematics.
    type Id;

    spec fn id(&self) -> Self::Id;

    fn same_key(&self, other: &Self) -> (same: bool)
        ensures
            same == (self.id() == other.id()),
    ;
}

/// The entries of a cache, in the order in which their keys first came.
pub struct KeyedList<K: CacheKey, V> {
    pub(crate) entries: Vec<(K, V)>,
}

/// Whether entry `i` has the key `id`.
pub open spec fn holds_at<K: CacheKey, V>(entries: Seq<(K, V)>, id: K::Id, i: int) -> bool {
    0 <= i < entries.len() && entries[i].0.id() == id
}

/// Whether no key occurs twice.
pub open spec fn distinct_keys<K: CacheKey, V>(entries: Seq<(K, V)>) -> bool {
    forall|i: int, j: int|
        0 <= i < j < entries.len() ==> (#[trigger] entries[i]).0.id() != (#[trigger] entries[j]).0.id()
}

/// The entries as a map from key to value.
pub open spec fn as_map<K: CacheKey, V>(entries: Seq<(K, V)>) -> Map<K::Id, V> {
    Map::new(
        |id: K::Id| exists|i: int| holds_at(entries, id, i),
        |id: K::Id| entries[choose|i: int| holds_at(entries, id, i)].1,
    )
}

/// In a list without double keys, the entry at `i` is what the map holds for its key.
pub proof fn lemma_entry_in_map<K: CacheKey, V>(entries: Seq<(K, V)>, i: int)
    requires
        distinct_keys(entries),
        0 <= i < entries.len(),
    ensures
        as_map(entries).contains_key(entries[i].0.id()),
        as_map(entries)[entries[i].0.id()] == entries[i].1,
{
    let id = entries[i].0.id();
    assert(holds_at(entries, id, i));
    let c = choose|c: int| holds_at(entries, id, c);
    if c < i {
        assert(entries[c].0.id() != entries[i].0.id());
    } else if i < c {
        assert(entries[i].0.id() != entries[c].0.id());
    }
}

/// A list without double keys has as many keys as entries.
pub proof fn lemma_key_count<K: CacheKey, V>(entries: Seq<(K, V)>)
    requires
        distinct_keys(entries),
    ensures
        as_map(entries).dom().finite(),
        as_map(entries).dom().len() == entries.len(),
    decreases entries.len(),
{
    if entries.len() == 0 {
        assert(as_map(entries).dom() =~= Set::<K::Id>::empty());
    } else {
        let front = entries.drop_last();
        let last = entries.last();
        assert(distinct_keys(front)) by {
            assert forall|i: int, j: int| 0 <= i < j < front.len() implies (#[trigger] front[i]).0.id()
                != (#[trigger] front[j]).0.id() by {
                assert(front[i] == entries[i]);
                assert(front[j] == entries[j]);
            }
        }
        lemma_key_count(front);
        assert(!as_map(front).dom().contains(last.0.id())) by {
            if as_map(front).dom().contains(last.0.id()) {
                let c = choose|c: int| holds_at(front, last.0.id(), c);
                assert(front[c] == entries[c]);
                assert(entries[c].0.id() != entries[entries.len() - 1].0.id());
            }
        }
        assert(as_map(entries).dom() =~= as_map(front).dom().insert(last.0.id())) by {
            assert forall|k: K::Id| #[trigger]
                as_map(entries).dom().contains(k) == as_map(front).dom().insert(
                    last.0.id(),
                ).contains(k) by {
                if as_map(entries).dom().contains(k) {
                    let c = choose|c: int| holds_at(entries, k, c);
                    if c < front.len() {
                        assert(front[c] == entries[c]);
                        assert(holds_at(front, k, c));
                    }
                }
                if as_map(front).dom().contains(k) {
                    let c = choose|c: int| holds_at(front, k, c);
                    assert(front[c] == entries[c]);
                    assert(holds_at(entries, k, c));
                }
                if k == last.0.id() {
                    assert(holds_at(entries, k, entries.len() - 1));
                }
            }
        }
    }
}

impl<K: CacheKey, V> KeyedList<K, V> {
    /// No key occurs twice.
    pub closed spec fn well_formed(&self) -> bool {
        distinct_keys(self.entries@)
    }

    /// The list as a map.
    pub closed spec fn map(&self) -> Map<K::Id, V> {
        as_map(self.entries@)
    }

    /// An empty list.
    pub fn new() -> (list: Self)
        ensures
            list.well_formed(),
            list.map() == Map::<K::Id, V>::empty(),
    {
        let list = KeyedList { entries: Vec::new() };
        assert(list.map() =~= Map::<K::Id, V>::empty());
        list
    }

    /// The number of entries, which is the number of keys.
    pub fn len(&self) -> (n: usize)
        requires
            self.well_formed(),
        ensures
            self.map().dom().finite(),
            n == self.map().dom().len(),
    {
        proof {
            lemma_key_count(self.entries@);
        }
        self.entries.len()
    }

    /// Where the key stands in the list, if it is there.
    fn find(&self, key: &K) -> (at: Option<usize>)
        ensures
            match at {
                Some(i) => holds_at(self.entries@, key.id(), i as int),
                None => forall|i: int| !holds_at(self.entries@, key.id(), i),
            },
            at is Some <==> self.map().contains_key(key.id()),
    {
        let mut i: usize = 0;
        while i < self.entries.len()
            invariant
                i <= self.entries@.len(),
                forall|j: int| 0 <= j < i ==> !holds_at(self.entries@, key.id(), j),
            decreases self.entries@.len() - i,
        {
            if self.entries[i].0.same_key(key) {
                assert(holds_at(self.entries@, key.id(), i as int));
                return Some(i);
            }
            i += 1;
        }
        None
    }

    /// The value under the key, if there is one.
    pub fn get(&self, key: &K) -> (value: Option<&V>)
        requires
            self.well_formed(),
        ensures
            match value {
                Some(v) => self.map().contains_key(key.id()) && self.map()[key.id()] == *v,
                None => !self.map().contains_key(key.id()),
            },
    {
        match self.find(key) {
            Some(i) => {
                proof {
                    lemma_entry_in_map(self.entries@, i as int);
                }
                Some(&self.entries[i].1)
            },
            None => None,
        }
    }

    /// Puts the value under the key, in place of any value that was there.
    pub fn insert(&mut self, key: K, value: V)
        requires
            old(self).well_formed(),
        ensures
            final(self).well_formed(),
            final(self).map() == old(self).map().insert(key.id(), value),
    {
        let ghost before = self.entries@;
        let ghost id = key.id();
        match self.find(&key) {
            Some(i) => {
                self.entries[i] = (key, value);
                let ghost after = self.entries@;
                assert(distinct_keys(after)) by {
                    assert forall|a: int, b: int| 0 <= a < b < after.len() implies (
                    #[trigger] after[a]).0.id() != (#[trigger] after[b]).0.id() by {
                        assert(after[a].0.id() == before[a].0.id());
                        assert(after[b].0.id() == before[b].0.id());
                    }
                }
                assert(as_map(after) =~= as_map(before).insert(id, value)) by {
                    assert forall|k: K::Id| #[trigger]
                        as_map(after).contains_key(k) == as_map(before).insert(
                            id,
                            value,
                        ).contains_key(k) by {
                        if as_map(after).contains_key(k) {
                            let c = choose|c: int| holds_at(after, k, c);
                            assert(holds_at(before, k, c));
                        }
                        if as_map(before).contains_key(k) {
                            let c = choose|c: int| holds_at(before, k, c);
                            assert(holds_at(after, k, c));
                        }
                        if k == id {
                            assert(holds_at(after, k, i as int));
                        }
                    }
                    assert forall|k: K::Id| as_map(after).contains_key(k) implies #[trigger] as_map(
                        after,
                    )[k] == as_map(before).insert(id, value)[k] by {
                        let c = choose|c: int| holds_at(after, k, c);
                        lemma_entry_in_map(after, c);
                        if k != id {
                            assert(holds_at(before, k, c));
                            lemma_entry_in_map(before, c);
                        } else {
                            if c < i {
                                assert(after[c].0.id() != after[i as int].0.id());
                            } else if i < c {
                                assert(after[i as int].0.id() != after[c].0.id());
                            }
                        }
                    }
                }
            },
            None => {
                self.entries.push((key, value));
                let ghost after = self.entries@;
                let ghost last = before.len() as int;
                assert(distinct_keys(after)) by {
                    assert forall|a: int, b: int| 0 <= a < b < after.len() implies (
                    #[trigger] after[a]).0.id() != (#[trigger] after[b]).0.id() by {
                        if b < last {
                            assert(after[a] == before[a]);
                            assert(after[b] == before[b]);
                        } else {
                            assert(after[a] == before[a]);
                            assert(!holds_at(before, id, a));
                        }
                    }
                }
                assert(as_map(after) =~= as_map(before).insert(id, value)) by {
                    assert forall|k: K::Id| #[trigger]
                        as_map(after).contains_key(k) == as_map(before).insert(
                            id,
                            value,
                        ).contains_key(k) by {
                        if as_map(after).contains_key(k) {
                            let c = choose|c: int| holds_at(after, k, c);
                            if c < last {
                                assert(after[c] == before[c]);
                                assert(holds_at(before, k, c));
                            }
                        }
                        if as_map(before).contains_key(k) {
                            let c = choose|c: int| holds_at(before, k, c);
                            assert(after[c] == before[c]);
                            assert(holds_at(after, k, c));
                        }
                        if k == id {
                            assert(holds_at(after, k, last));
                        }
                    }
                    assert forall|k: K::Id| as_map(after).contains_key(k) implies #[trigger] as_map(
                        after,
                    )[k] == as_map(before).insert(id, value)[k] by {
                        let c = choose|c: int| holds_at(after, k, c);
                        lemma_entry_in_map(after, c);
                        if c < last {
                            assert(after[c] == before[c]);
                            assert(holds_at(before, k, c));
                            lemma_entry_in_map(before, c);
                        }
                    }
                }
            },
        }
    }

    /// Takes entry `i` out of the list.
    fn remove_at(&mut self, i: usize)
        requires
            old(self).well_formed(),
            i < old(self).entries@.len(),
        ensures
            final(self).well_formed(),
            final(self).entries@ == old(self).entries@.remove(i as int),
            final(self).map() == old(self).map().remove(old(self).entries@[i as int].0.id()),
    {
        let ghost before = self.entries@;
        let ghost id = before[i as int].0.id();
        self.entries.remove(i);
        let ghost after = self.entries@;
        assert(distinct_keys(after)) by {
            assert forall|a: int, b: int| 0 <= a < b < after.len() implies (#[trigger] after[a]).0.id()
                != (#[trigger] after[b]).0.id() by {
                let a0 = if a < i { a } else { a + 1 };
                let b0 = if b < i { b } else { b + 1 };
                assert(after[a] == before[a0]);
                assert(after[b] == before[b0]);
            }
        }
        assert(as_map(after) =~= as_map(before).remove(id)) by {
            assert forall|k: K::Id| #[trigger]
                as_map(after).contains_key(k) == as_map(before).remove(id).contains_key(k) by {
                if as_map(after).contains_key(k) {
                    let c = choose|c: int| holds_at(after, k, c);
                    let c0 = if c < i { c } else { c + 1 };
                    assert(after[c] == before[c0]);
                    assert(holds_at(before, k, c0));
                    if c0 < i {
                        assert(before[c0].0.id() != before[i as int].0.id());
                    } else {
                        assert(before[i as int].0.id() != before[c0].0.id());
                    }
                }
                if as_map(before).contains_key(k) && k != id {
                    let c = choose|c: int| holds_at(before, k, c);
                    let c1 = if c < i { c } else { c - 1 };
                    assert(after[c1] == before[c]);
                    assert(holds_at(after, k, c1));
                }
            }
            assert forall|k: K::Id| as_map(after).contains_key(k) implies #[trigger] as_map(after)[k]
                == as_map(before).remove(id)[k] by {
                let c = choose|c: int| holds_at(after, k, c);
                let c0 = if c < i { c } else { c + 1 };
                assert(after[c] == before[c0]);
                lemma_entry_in_map(after, c);
                lemma_entry_in_map(before, c0);
            }
        }
    }
}

impl<K: CacheKey, V> KeyedList<K, V> {
    /// Keeps the entries whose values `keep` accepts, and takes the others out.
    pub fn retain<F: Fn(&V) -> bool>(&mut self, keep: &F)
        requires
            old(self).well_formed(),
            forall|value: &V| call_requires(*keep, (value,)),
        ensures
            final(self).well_formed(),
            forall|k: K::Id| #[trigger]
                final(self).map().contains_key(k) ==> {
                    &&& old(self).map().contains_key(k)
                    &&& final(self).map()[k] == old(self).map()[k]
                    &&& call_ensures(*keep, (&old(self).map()[k],), true)
                },
            forall|k: K::Id|
                #![trigger old(self).map().contains_key(k)]
                old(self).map().contains_key(k) && !final(self).map().contains_key(k)
                    ==> call_ensures(*keep, (&old(self).map()[k],), false),
    {
        let ghost before = self.map();
        let mut i: usize = 0;
        while i < self.entries.len()
            invariant
                i <= self.entries@.len(),
                self.well_formed(),
                forall|value: &V| call_requires(*keep, (value,)),
                forall|j: int|
                    0 <= j < i ==> call_ensures(*keep, (&(#[trigger] self.entries@[j]).1,), true),
                forall|k: K::Id| #[trigger]
                    self.map().contains_key(k) ==> before.contains_key(k) && before[k]
                        == self.map()[k],
                forall|k: K::Id|
                    #![trigger before.contains_key(k)]
                    before.contains_key(k) && !self.map().contains_key(k) ==> call_ensures(
                        *keep,
                        (&before[k],),
                        false,
                    ),
            decreases self.entries@.len() - i,
        {
            let kept: bool = keep(&self.entries[i].1);
            if kept {
                i += 1;
            } else {
                proof {
                    lemma_entry_in_map(self.entries@, i as int);
                }
                self.remove_at(i);
            }
        }
        proof {
            assert forall|k: K::Id| #[trigger] self.map().contains_key(k) implies call_ensures(
                *keep,
                (&before[k],),
                true,
            ) by {
                let c = choose|c: int| holds_at(self.entries@, k, c);
                lemma_entry_in_map(self.entries@, c);
            }
        }
    }
}

} // verus!
