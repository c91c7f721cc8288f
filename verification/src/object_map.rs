//! Object-keyed ordered storage with an id index.
use vstd::prelude::*;
use std::collections::HashMap;

use crate::identity::{lemma_object_id_raw_injective, ObjectId};

verus! {

broadcast use vstd::std_specs::hash::group_hash_axioms;

/// True when some entry of `entries` is keyed by `id`.
pub open spec fn has_id<T>(entries: Seq<(ObjectId, T)>, id: ObjectId) -> bool {
    exists|i: int| 0 <= i < entries.len() && (#[trigger] entries[i]).0 == id
}

/// The position of the entry keyed by `id` (meaningful when `has_id` holds).
pub open spec fn position_of<T>(entries: Seq<(ObjectId, T)>, id: ObjectId) -> int {
    choose|i: int| 0 <= i < entries.len() && (#[trigger] entries[i]).0 == id
}

/// The value stored for `id` (meaningful when `has_id` holds).
pub open spec fn value_of<T>(entries: Seq<(ObjectId, T)>, id: ObjectId) -> T {
    entries[position_of(entries, id)].1
}

/// No two entries share an id.
pub open spec fn unique_ids<T>(entries: Seq<(ObjectId, T)>) -> bool {
    forall|i: int, j: int|
        0 <= i < entries.len() && 0 <= j < entries.len() && i != j ==> (#[trigger] entries[i]).0
            != (#[trigger] entries[j]).0
}

/// With distinct ids, the position of a present id is the one entry carrying it.
pub proof fn lemma_position_of_unique<T>(entries: Seq<(ObjectId, T)>, i: int)
    requires
        unique_ids(entries),
        0 <= i < entries.len(),
    ensures
        has_id(entries, entries[i].0),
        position_of(entries, entries[i].0) == i,
{
    let id = entries[i].0;
    assert(has_id(entries, id));
    let p = position_of(entries, id);
    assert(0 <= p < entries.len() && entries[p].0 == id);
}

/// Writing `value` for `id` leaves it readable under `id`, and leaves every other id's
/// presence and value as they were.
pub proof fn lemma_put_then_get<T>(entries: Seq<(ObjectId, T)>, id: ObjectId, value: T, other: ObjectId)
    requires
        unique_ids(entries),
    ensures
        ({
            let after = if has_id(entries, id) {
                entries.update(position_of(entries, id), (id, value))
            } else {
                entries.push((id, value))
            };
            &&& has_id(after, id)
            &&& value_of(after, id) == value
            &&& other != id ==> has_id(after, other) == has_id(entries, other)
            &&& other != id && has_id(entries, other) ==> value_of(after, other) == value_of(entries, other)
        }),
{
    let after = if has_id(entries, id) {
        entries.update(position_of(entries, id), (id, value))
    } else {
        entries.push((id, value))
    };
    let p = if has_id(entries, id) { position_of(entries, id) } else { entries.len() as int };
    assert(after[p] == (id, value));
    assert(unique_ids(after)) by {
        assert forall|i: int, j: int|
            0 <= i < after.len() && 0 <= j < after.len() && i != j implies (#[trigger] after[i]).0
            != (#[trigger] after[j]).0 by {
            if i != p && j != p {
                assert(after[i] == entries[i]);
                assert(after[j] == entries[j]);
            } else if i == p {
                assert(after[j] == entries[j]);
                if !has_id(entries, id) {
                    assert(entries[j].0 != id);
                }
            } else {
                assert(after[i] == entries[i]);
                if !has_id(entries, id) {
                    assert(entries[i].0 != id);
                }
            }
        }
    }
    lemma_position_of_unique(after, p);
    if other != id {
        if has_id(entries, other) {
            let q = position_of(entries, other);
            lemma_position_of_unique(entries, q);
            assert(after[q] == entries[q]);
            lemma_position_of_unique(after, q);
        }
        if has_id(after, other) {
            let q = choose|q: int| 0 <= q < after.len() && (#[trigger] after[q]).0 == other;
            assert(q != p);
            assert(after[q] == entries[q]);
        }
    }
}

/// Removing `id` leaves it absent, and leaves every other id's presence and value as they were.
pub proof fn lemma_remove_then_absent<T>(entries: Seq<(ObjectId, T)>, id: ObjectId, other: ObjectId)
    requires
        unique_ids(entries),
        has_id(entries, id),
    ensures
        ({
            let after = entries.remove(position_of(entries, id));
            &&& !has_id(after, id)
            &&& other != id ==> has_id(after, other) == has_id(entries, other)
            &&& other != id && has_id(entries, other) ==> value_of(after, other) == value_of(entries, other)
        }),
{
    let p = position_of(entries, id);
    let after = entries.remove(p);
    assert(unique_ids(after)) by {
        assert forall|i: int, j: int|
            0 <= i < after.len() && 0 <= j < after.len() && i != j implies (#[trigger] after[i]).0
            != (#[trigger] after[j]).0 by {
            let oi = if i < p { i } else { i + 1 };
            let oj = if j < p { j } else { j + 1 };
            assert(after[i] == entries[oi]);
            assert(after[j] == entries[oj]);
        }
    }
    if has_id(after, id) {
        let q = choose|q: int| 0 <= q < after.len() && (#[trigger] after[q]).0 == id;
        let oq = if q < p { q } else { q + 1 };
        assert(after[q] == entries[oq]);
        assert(entries[p].0 == id);
    }
    if other != id {
        if has_id(entries, other) {
            let q = position_of(entries, other);
            lemma_position_of_unique(entries, q);
            let nq = if q < p { q } else { q - 1 };
            assert(after[nq] == entries[q]);
            lemma_position_of_unique(after, nq);
        }
        if has_id(after, other) {
            let q = choose|q: int| 0 <= q < after.len() && (#[trigger] after[q]).0 == other;
            let oq = if q < p { q } else { q + 1 };
            assert(after[q] == entries[oq]);
        }
    }
}

/// Ordered object-keyed entries; `index_by_id` maps each id to its entry's position.
#[derive(Clone, Debug, Default)]
pub struct ObjectMap<T> {
    entries: Vec<(ObjectId, T)>,
    index_by_id: HashMap<u64, usize>,
}

impl<T> ObjectMap<T> {
    /// Entries in insertion order.
    pub closed spec fn view(&self) -> Seq<(ObjectId, T)> {
        self.entries@
    }

    /// The id index agrees with the entry order, and ids are distinct.
    pub closed spec fn wf(&self) -> bool {
        &&& unique_ids(self.entries@)
        &&& forall|i: int|
            0 <= i < self.entries@.len() ==> {
                &&& #[trigger] self.index_by_id@.contains_key(self.entries@[i].0.raw())
                &&& self.index_by_id@[self.entries@[i].0.raw()] == i
            }
        &&& forall|k: u64| #[trigger]
            self.index_by_id@.contains_key(k) ==> {
                &&& self.index_by_id@[k] < self.entries@.len()
                &&& self.entries@[self.index_by_id@[k] as int].0.raw() == k
            }
    }

    /// Creates an empty map.
    pub fn new() -> (map: ObjectMap<T>)
        ensures
            map.wf(),
            map@ == Seq::<(ObjectId, T)>::empty(),
    {
        ObjectMap { entries: Vec::new(), index_by_id: HashMap::new() }
    }

    /// Looks up the position of `id` through the index.
    fn find_index(&self, id: ObjectId) -> (position: Option<usize>)
        requires
            self.wf(),
        ensures
            match position {
                Some(p) => has_id(self@, id) && p == position_of(self@, id),
                None => !has_id(self@, id),
            },
    {
        broadcast use lemma_object_id_raw_injective;
        match self.index_by_id.get(&id.get()) {
            Some(p) => {
                let p = *p;
                proof {
                    lemma_position_of_unique(self.entries@, p as int);
                }
                Some(p)
            },
            None => {
                proof {
                    if has_id(self@, id) {
                        let i = choose|i: int| 0 <= i < self@.len() && (#[trigger] self@[i]).0 == id;
                        assert(self.index_by_id@.contains_key(self.entries@[i].0.raw()));
                    }
                }
                None
            },
        }
    }

    /// Inserts `value` for `id`, or overwrites the existing value in place.
    pub fn put(&mut self, id: ObjectId, value: T)
        requires
            old(self).wf(),
        ensures
            final(self).wf(),
            has_id(old(self)@, id) ==> final(self)@ == old(self)@.update(
                position_of(old(self)@, id),
                (id, value),
            ),
            !has_id(old(self)@, id) ==> final(self)@ == old(self)@.push((id, value)),
    {
        broadcast use lemma_object_id_raw_injective;
        if let Some(index) = self.find_index(id) {
            self.entries.set(index, (id, value));
            proof {
                assert forall|i: int| 0 <= i < self.entries@.len() implies {
                    &&& #[trigger] self.index_by_id@.contains_key(self.entries@[i].0.raw())
                    &&& self.index_by_id@[self.entries@[i].0.raw()] == i
                } by {
                    assert(self.entries@[i].0 == old(self).entries@[i].0);
                }
                assert forall|k: u64| #[trigger] self.index_by_id@.contains_key(k) implies {
                    &&& self.index_by_id@[k] < self.entries@.len()
                    &&& self.entries@[self.index_by_id@[k] as int].0.raw() == k
                } by {
                    let p = self.index_by_id@[k] as int;
                    assert(self.entries@[p].0 == old(self).entries@[p].0);
                }
                assert(unique_ids(self.entries@)) by {
                    assert forall|i: int, j: int|
                        0 <= i < self.entries@.len() && 0 <= j < self.entries@.len() && i != j
                        implies (#[trigger] self.entries@[i]).0 != (#[trigger] self.entries@[j]).0 by {
                        assert(self.entries@[i].0 == old(self).entries@[i].0);
                        assert(self.entries@[j].0 == old(self).entries@[j].0);
                    }
                }
            }
            return;
        }
        let len = self.entries.len();
        self.index_by_id.insert(id.get(), len);
        self.entries.push((id, value));
        proof {
            assert forall|i: int| 0 <= i < self.entries@.len() implies {
                &&& #[trigger] self.index_by_id@.contains_key(self.entries@[i].0.raw())
                &&& self.index_by_id@[self.entries@[i].0.raw()] == i
            } by {
                if i < len {
                    assert(self.entries@[i] == old(self).entries@[i]);
                    assert(old(self).entries@[i].0 != id);
                }
            }
            assert forall|k: u64| #[trigger] self.index_by_id@.contains_key(k) implies {
                &&& self.index_by_id@[k] < self.entries@.len()
                &&& self.entries@[self.index_by_id@[k] as int].0.raw() == k
            } by {
                if k != id.raw() {
                    assert(old(self).index_by_id@.contains_key(k));
                }
            }
            assert(unique_ids(self.entries@)) by {
                assert forall|i: int, j: int|
                    0 <= i < self.entries@.len() && 0 <= j < self.entries@.len() && i != j
                    implies (#[trigger] self.entries@[i]).0 != (#[trigger] self.entries@[j]).0 by {
                    if i < len && j < len {
                        assert(self.entries@[i] == old(self).entries@[i]);
                        assert(self.entries@[j] == old(self).entries@[j]);
                    } else if i < len {
                        assert(self.entries@[i] == old(self).entries@[i]);
                    } else {
                        assert(self.entries@[j] == old(self).entries@[j]);
                    }
                }
            }
        }
    }

    /// Returns true when a value is stored for `id`.
    pub fn contains(&self, id: ObjectId) -> (present: bool)
        requires
            self.wf(),
        ensures
            present == has_id(self@, id),
    {
        self.find_index(id).is_some()
    }

    /// Returns the value stored for `id`.
    pub fn get(&self, id: ObjectId) -> (value: Option<&T>)
        requires
            self.wf(),
        ensures
            match value {
                Some(v) => has_id(self@, id) && *v == value_of(self@, id),
                None => !has_id(self@, id),
            },
    {
        match self.find_index(id) {
            Some(index) => Some(&self.entries[index].1),
            None => None,
        }
    }

    /// Overwrites the value for an existing `id`; does nothing and returns false otherwise.
    pub fn replace_existing(&mut self, id: ObjectId, value: T) -> (replaced: bool)
        requires
            old(self).wf(),
        ensures
            final(self).wf(),
            replaced == has_id(old(self)@, id),
            replaced ==> final(self)@ == old(self)@.update(position_of(old(self)@, id), (id, value)),
            !replaced ==> final(self)@ == old(self)@,
    {
        if self.find_index(id).is_none() {
            return false;
        }
        self.put(id, value);
        true
    }

    /// Removes the entry for `id`, keeping the order of the other entries.
    pub fn remove(&mut self, id: ObjectId) -> (removed: bool)
        requires
            old(self).wf(),
        ensures
            final(self).wf(),
            removed == has_id(old(self)@, id),
            removed ==> final(self)@ == old(self)@.remove(position_of(old(self)@, id)),
            !removed ==> final(self)@ == old(self)@,
    {
        broadcast use lemma_object_id_raw_injective;
        let index = match self.find_index(id) {
            Some(index) => index,
            None => return false,
        };
        let ghost old_entries = self.entries@;
        let _ = self.index_by_id.remove(&id.get());
        let _ = self.entries.remove(index);
        proof {
            assert(self.entries@ == old_entries.remove(index as int));
            assert forall|i: int, j: int|
                0 <= i < self.entries@.len() && 0 <= j < self.entries@.len() && i != j
                implies (#[trigger] self.entries@[i]).0 != (#[trigger] self.entries@[j]).0 by {
                let oi = if i < index { i } else { i + 1 };
                let oj = if j < index { j } else { j + 1 };
                assert(self.entries@[i] == old_entries[oi]);
                assert(self.entries@[j] == old_entries[oj]);
            }
            assert forall|i: int| 0 <= i < self.entries@.len() implies #[trigger] self.index_by_id@.contains_key(
                self.entries@[i].0.raw(),
            ) by {
                let oi = if i < index { i } else { i + 1 };
                assert(self.entries@[i] == old_entries[oi]);
                assert(old_entries[oi].0 != id);
                assert(old(self).index_by_id@.contains_key(old_entries[oi].0.raw()));
            }
            assert forall|i: int| 0 <= i < index implies self.index_by_id@[(
            #[trigger] self.entries@[i]).0.raw()] == i by {
                assert(self.entries@[i] == old_entries[i]);
                assert(old_entries[i].0 != id);
                assert(old(self).index_by_id@.contains_key(old_entries[i].0.raw()));
                assert(old_entries[i].0.raw() != id.raw());
            }
            assert forall|k: u64| #[trigger] self.index_by_id@.contains_key(k) implies exists|i: int|
                0 <= i < self.entries@.len() && (#[trigger] self.entries@[i]).0.raw() == k by {
                let op = old(self).index_by_id@[k] as int;
                assert(old_entries[op].0.raw() == k);
                assert(op != index);
                let ni = if op < index { op } else { op - 1 };
                assert(self.entries@[ni] == old_entries[op]);
            }
        }
        self.reindex_from(index);
        true
    }

    /// Number of entries.
    pub fn count(&self) -> (n: usize)
        ensures
            n == self@.len(),
    {
        self.entries.len()
    }

    /// Rewrites the index for every entry at or after `start`.
    fn reindex_from(&mut self, start: usize)
        requires
            unique_ids(old(self).entries@),
            start <= old(self).entries@.len(),
            forall|i: int|
                0 <= i < old(self).entries@.len() ==> #[trigger] old(self).index_by_id@.contains_key(
                    old(self).entries@[i].0.raw(),
                ),
            forall|i: int|
                0 <= i < start ==> old(self).index_by_id@[(
                #[trigger] old(self).entries@[i]).0.raw()] == i,
            forall|k: u64| #[trigger]
                old(self).index_by_id@.contains_key(k) ==> exists|i: int|
                    0 <= i < old(self).entries@.len() && (#[trigger] old(self).entries@[i]).0.raw()
                        == k,
        ensures
            final(self).wf(),
            final(self)@ == old(self)@,
    {
        broadcast use lemma_object_id_raw_injective;
        let mut index = start;
        while index < self.entries.len()
            invariant
                self.entries@ == old(self).entries@,
                unique_ids(self.entries@),
                start <= index <= self.entries@.len(),
                forall|i: int|
                    0 <= i < self.entries@.len() ==> #[trigger] self.index_by_id@.contains_key(
                        self.entries@[i].0.raw(),
                    ),
                forall|i: int|
                    0 <= i < index ==> self.index_by_id@[(#[trigger] self.entries@[i]).0.raw()]
                        == i,
                forall|k: u64| #[trigger]
                    self.index_by_id@.contains_key(k) ==> exists|i: int|
                        0 <= i < self.entries@.len() && (#[trigger] self.entries@[i]).0.raw() == k,
            decreases self.entries@.len() - index,
        {
            let key = self.entries[index].0.get();
            let ghost before = self.index_by_id@;
            self.index_by_id.insert(key, index);
            proof {
                assert(self.index_by_id@ == before.insert(key, index));
                assert forall|i: int| 0 <= i < index + 1 implies self.index_by_id@[(
                #[trigger] self.entries@[i]).0.raw()] == i by {
                    if i < index {
                        let a = self.entries@[i];
                        let b = self.entries@[index as int];
                        assert(a.0 != b.0);
                        lemma_object_id_raw_injective(a.0, b.0);
                        assert(before[a.0.raw()] == i);
                    }
                }
                assert forall|k: u64| #[trigger] self.index_by_id@.contains_key(k) implies exists|i: int|
                    0 <= i < self.entries@.len() && (#[trigger] self.entries@[i]).0.raw() == k by {
                    if k == key {
                        assert(self.entries@[index as int].0.raw() == k);
                    } else {
                        assert(before.contains_key(k));
                    }
                }
            }
            index = index + 1;
        }
        proof {
            assert forall|k: u64| #[trigger] self.index_by_id@.contains_key(k) implies {
                &&& self.index_by_id@[k] < self.entries@.len()
                &&& self.entries@[self.index_by_id@[k] as int].0.raw() == k
            } by {
                let i = choose|i: int|
                    0 <= i < self.entries@.len() && (#[trigger] self.entries@[i]).0.raw() == k;
                assert(self.index_by_id@[self.entries@[i].0.raw()] == i);
            }
        }
    }
}

} // verus!
