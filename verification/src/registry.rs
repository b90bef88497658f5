//! A map held as a list of entries, for keys that are compared by an identity.

use vstd::prelude::*;

verus! {

/// A key that entries are found by. Two keys are the same key when their identities are equal.
pub trait MapKey: Copy {
    /// What a key is identified by.
    type Id;

    /// The identity of a key.
    spec fn id(self) -> Self::Id;

    /// Whether two keys have the same identity.
    fn same_key(self, other: Self) -> (res: bool)
        ensures
            res == (self.id() == other.id()),
    ;
}

/// A map from keys to values. Its view is the map from the identities of the keys to the values.
pub struct Registry<K: MapKey, V: Copy> {
    entries: Vec<(K, V)>,
}

impl<K: MapKey, V: Copy> Registry<K, V> {
    /// No two entries have the same key.
    pub closed spec fn wf(self) -> bool {
        forall|i: int, j: int|
            0 <= i < j < self.entries@.len() ==> (#[trigger] self.entries@[i]).0.id()
                != (#[trigger] self.entries@[j]).0.id()
    }

    /// Whether entry `i` has the key `id`.
    pub closed spec fn holds_at(self, i: int, id: K::Id) -> bool {
        0 <= i < self.entries@.len() && self.entries@[i].0.id() == id
    }

    /// The map that the entries stand for.
    pub closed spec fn map(self) -> Map<K::Id, V> {
        Map::new(
            |id: K::Id| exists|i: int| self.holds_at(i, id),
            |id: K::Id| self.entries@[choose|i: int| self.holds_at(i, id)].1,
        )
    }

    proof fn lemma_entry(self, i: int)
        requires
            self.wf(),
            0 <= i < self.entries@.len(),
        ensures
            self.map().dom().contains(self.entries@[i].0.id()),
            self.map()[self.entries@[i].0.id()] == self.entries@[i].1,
    {
        let id = self.entries@[i].0.id();
        assert(self.holds_at(i, id));
        let j = choose|j: int| self.holds_at(j, id);
        assert(self.holds_at(j, id));
        if i < j {
            assert(self.entries@[i].0.id() != self.entries@[j].0.id());
        } else if j < i {
            assert(self.entries@[j].0.id() != self.entries@[i].0.id());
        }
    }

    /// An empty map.
    pub fn new() -> (res: Self)
        ensures
            res.wf(),
            res.map() == Map::<K::Id, V>::empty(),
    {
        let res = Registry { entries: Vec::new() };
        assert(res.map() =~= Map::<K::Id, V>::empty()) by {
            assert forall|id: K::Id| !res.map().dom().contains(id) by {
                assert(forall|i: int| !res.holds_at(i, id));
            }
        }
        res
    }

    fn position(&self, key: K) -> (res: Option<usize>)
        requires
            self.wf(),
        ensures
            res matches Some(i) ==> self.holds_at(i as int, key.id()),
            res is None ==> !self.map().dom().contains(key.id()),
    {
        let mut i: usize = 0;
        while i < self.entries.len()
            invariant
                i <= self.entries@.len(),
                forall|j: int| 0 <= j < i ==> !#[trigger] self.holds_at(j, key.id()),
            decreases self.entries@.len() - i,
        {
            if self.entries[i].0.same_key(key) {
                return Some(i);
            }
            i = i + 1;
        }
        assert forall|j: int| !self.holds_at(j, key.id()) by {}
        None
    }

    /// Whether the map has the key.
    pub fn contains_key(&self, key: K) -> (res: bool)
        requires
            self.wf(),
        ensures
            res == self.map().dom().contains(key.id()),
    {
        match self.position(key) {
            Some(i) => {
                proof {
                    self.lemma_entry(i as int);
                }
                true
            },
            None => false,
        }
    }

    /// The value of the key, if the map has it.
    pub fn get(&self, key: K) -> (res: Option<V>)
        requires
            self.wf(),
        ensures
            res == (if self.map().dom().contains(key.id()) {
                Some(self.map()[key.id()])
            } else {
                None
            }),
    {
        match self.position(key) {
            Some(i) => {
                proof {
                    self.lemma_entry(i as int);
                }
                Some(self.entries[i].1)
            },
            None => None,
        }
    }

    /// Maps the key to the value, in place of any value that it had.
    pub fn insert(&mut self, key: K, value: V)
        requires
            old(self).wf(),
        ensures
            final(self).wf(),
            final(self).map() == old(self).map().insert(key.id(), value),
    {
        match self.position(key) {
            Some(i) => {
                let kept = self.entries[i].0;
                self.entries.set(i, (kept, value));
                assert(self.wf());
                proof {
                    assert forall|id: K::Id|
                        self.map().dom().contains(id) <==> old(self).map().dom().contains(id)
                            || id == key.id() by {
                        assert forall|j: int|
                            self.holds_at(j, id) <==> old(self).holds_at(j, id) by {}
                        self.lemma_entry(i as int);
                    }
                    assert forall|id: K::Id| #[trigger]
                        self.map().dom().contains(id) implies self.map()[id] == old(
                        self,
                    ).map().insert(key.id(), value)[id] by {
                        let j = choose|j: int| self.holds_at(j, id);
                        assert(self.holds_at(j, id));
                        self.lemma_entry(j);
                        old(self).lemma_entry(j);
                        self.lemma_entry(i as int);
                    }
                    assert(self.map() =~= old(self).map().insert(key.id(), value));
                }
            },
            None => {
                self.entries.push((key, value));
                proof {
                    let n = old(self).entries@.len() as int;
                    assert forall|i: int, j: int| 0 <= i < j < self.entries@.len() implies (
                    #[trigger] self.entries@[i]).0.id() != (#[trigger] self.entries@[j]).0.id() by {
                        if j == n {
                            old(self).lemma_entry(i);
                        } else {
                            assert(old(self).entries@[i].0.id() != old(self).entries@[j].0.id());
                        }
                    }
                    assert(self.wf());
                    assert forall|id: K::Id| #[trigger]
                        self.map().dom().contains(id) implies old(self).map().insert(
                        key.id(),
                        value,
                    ).dom().contains(id) && self.map()[id] == old(self).map().insert(
                        key.id(),
                        value,
                    )[id] by {
                        let j = choose|j: int| self.holds_at(j, id);
                        assert(self.holds_at(j, id));
                        self.lemma_entry(j);
                        if j < n {
                            old(self).lemma_entry(j);
                        }
                    }
                    assert forall|id: K::Id| #[trigger]
                        old(self).map().insert(key.id(), value).dom().contains(
                            id,
                        ) implies self.map().dom().contains(id) by {
                        if id == key.id() {
                            self.lemma_entry(n);
                        } else {
                            let j = choose|j: int| old(self).holds_at(j, id);
                            assert(old(self).holds_at(j, id));
                            self.lemma_entry(j);
                        }
                    }
                    assert(self.map() =~= old(self).map().insert(key.id(), value));
                }
            },
        }
    }

    /// Takes the key out of the map, if it is there.
    pub fn remove(&mut self, key: K)
        requires
            old(self).wf(),
        ensures
            final(self).wf(),
            final(self).map() == old(self).map().remove(key.id()),
    {
        match self.position(key) {
            Some(i) => {
                let _ = self.entries.remove(i);
                proof {
                    let k = i as int;
                    assert forall|a: int, b: int| 0 <= a < b < self.entries@.len() implies (
                    #[trigger] self.entries@[a]).0.id() != (#[trigger] self.entries@[b]).0.id() by {
                        let x = if a < k { a } else { a + 1 };
                        let y = if b < k { b } else { b + 1 };
                        assert(old(self).entries@[x].0.id() != old(self).entries@[y].0.id());
                    }
                    assert(self.wf());
                    assert forall|id: K::Id| #[trigger]
                        self.map().dom().contains(id) implies old(self).map().remove(
                        key.id(),
                    ).dom().contains(id) && self.map()[id] == old(self).map()[id] by {
                        let j = choose|j: int| self.holds_at(j, id);
                        assert(self.holds_at(j, id));
                        self.lemma_entry(j);
                        let x = if j < k { j } else { j + 1 };
                        old(self).lemma_entry(x);
                        if x < k {
                            assert(old(self).entries@[x].0.id() != old(self).entries@[k].0.id());
                        } else {
                            assert(old(self).entries@[k].0.id() != old(self).entries@[x].0.id());
                        }
                    }
                    assert forall|id: K::Id| #[trigger]
                        old(self).map().remove(key.id()).dom().contains(
                            id,
                        ) implies self.map().dom().contains(id) by {
                        let x = choose|x: int| old(self).holds_at(x, id);
                        assert(old(self).holds_at(x, id));
                        let j = if x < k { x } else { x - 1 };
                        self.lemma_entry(j);
                    }
                    assert(self.map() =~= old(self).map().remove(key.id()));
                }
            },
            None => {
                assert(self.map() =~= old(self).map().remove(key.id()));
            },
        }
    }

    /// The entries, in the order in which they are held.
    pub closed spec fn list(self) -> Seq<(K, V)> {
        self.entries@
    }

    /// The list of entries holds each key of the map once, with its value.
    pub proof fn lemma_list(self)
        requires
            self.wf(),
        ensures
            forall|i: int|
                0 <= i < self.list().len() ==> self.map().dom().contains(
                    (#[trigger] self.list()[i]).0.id(),
                ) && self.map()[self.list()[i].0.id()] == self.list()[i].1,
            forall|id: K::Id| #[trigger]
                self.map().dom().contains(id) ==> exists|i: int|
                    0 <= i < self.list().len() && (#[trigger] self.list()[i]).0.id() == id,
            forall|i: int, j: int|
                0 <= i < j < self.list().len() ==> (#[trigger] self.list()[i]).0.id() != (
                #[trigger] self.list()[j]).0.id(),
    {
        assert forall|i: int| 0 <= i < self.list().len() implies self.map().dom().contains(
            (#[trigger] self.list()[i]).0.id(),
        ) && self.map()[self.list()[i].0.id()] == self.list()[i].1 by {
            self.lemma_entry(i);
        }
        assert forall|id: K::Id| #[trigger] self.map().dom().contains(id) implies exists|i: int|
            0 <= i < self.list().len() && (#[trigger] self.list()[i]).0.id() == id by {
            let i = choose|i: int| self.holds_at(i, id);
            assert(self.list()[i].0.id() == id);
        }
    }

    /// The keys of the first `n` entries are `n` different keys.
    proof fn lemma_prefix_len(self, n: int)
        requires
            self.wf(),
            0 <= n <= self.entries@.len(),
        ensures
            self.prefix(n).finite(),
            self.prefix(n).len() == n,
        decreases n,
    {
        if n == 0 {
            assert(self.prefix(0) =~= Set::<K::Id>::empty());
        } else {
            self.lemma_prefix_len(n - 1);
            let id = self.entries@[n - 1].0.id();
            assert(self.prefix(n) =~= self.prefix(n - 1).insert(id)) by {
                assert forall|other: K::Id| #[trigger]
                    self.prefix(n).contains(other) implies self.prefix(n - 1).insert(id).contains(
                    other,
                ) by {
                    let i = choose|i: int| 0 <= i < n && self.holds_at(i, other);
                    assert(self.holds_at(i, other));
                }
                assert forall|other: K::Id| #[trigger]
                    self.prefix(n - 1).insert(id).contains(other) implies self.prefix(n).contains(
                    other,
                ) by {
                    if other == id {
                        assert(self.holds_at(n - 1, id));
                    } else {
                        let i = choose|i: int| 0 <= i < n - 1 && self.holds_at(i, other);
                        assert(self.holds_at(i, other));
                    }
                }
            }
            assert(!self.prefix(n - 1).contains(id)) by {
                if self.prefix(n - 1).contains(id) {
                    let i = choose|i: int| 0 <= i < n - 1 && self.holds_at(i, id);
                    assert(self.entries@[i].0.id() != self.entries@[n - 1].0.id());
                }
            }
        }
    }

    closed spec fn prefix(self, n: int) -> Set<K::Id> {
        Set::new(|id: K::Id| exists|i: int| 0 <= i < n && self.holds_at(i, id))
    }

    /// The number of keys.
    pub fn len(&self) -> (res: usize)
        requires
            self.wf(),
        ensures
            res == self.list().len(),
            self.map().dom().finite(),
            res == self.map().dom().len(),
    {
        proof {
            let n = self.entries@.len() as int;
            self.lemma_prefix_len(n);
            assert(self.map().dom() =~= self.prefix(n)) by {
                assert forall|id: K::Id| #[trigger]
                    self.map().dom().contains(id) implies self.prefix(n).contains(id) by {
                    let i = choose|i: int| self.holds_at(i, id);
                    assert(self.holds_at(i, id));
                }
                assert forall|id: K::Id| #[trigger] self.prefix(n).contains(id) implies self.map()
                    .dom().contains(id) by {
                    let i = choose|i: int| 0 <= i < n && self.holds_at(i, id);
                    assert(self.holds_at(i, id));
                }
            }
        }
        self.entries.len()
    }

    /// The entry at position `i` of the list.
    pub fn entry(&self, i: usize) -> (res: (K, V))
        requires
            i < self.list().len(),
        ensures
            res == self.list()[i as int],
    {
        self.entries[i]
    }

    /// Some entry of the map, if it has any.
    pub fn any(&self) -> (res: Option<(K, V)>)
        requires
            self.wf(),
        ensures
            res is None <==> self.map() == Map::<K::Id, V>::empty(),
            res matches Some(e) ==> self.map().dom().contains(e.0.id()) && self.map()[e.0.id()]
                == e.1,
    {
        if self.entries.len() == 0 {
            assert(self.map() =~= Map::<K::Id, V>::empty()) by {
                assert forall|id: K::Id| !self.map().dom().contains(id) by {
                    assert(forall|i: int| !self.holds_at(i, id));
                }
            }
            None
        } else {
            proof {
                self.lemma_entry(0);
            }
            Some(self.entries[0])
        }
    }
}

} // verus!
