//! Stable object identity primitive.
use vstd::prelude::*;

use crate::text::{decimal, decimal_text};

use crate::errors::CoreError;

verus! {

/// Stable domain-neutral object handle.
#[derive(Clone, Copy, Debug, Default, PartialEq, Eq, Structural, Hash, PartialOrd, Ord)]
pub struct ObjectId(u64);

impl ObjectId {
    /// The decimal text of this id's value.
    pub fn to_text(self) -> (text: String)
        ensures
            text@ == decimal_text(self.raw() as nat),
    {
        decimal(self.0)
    }

    /// Reserved sentinel used to represent "no object".
    pub fn invalid() -> (id: ObjectId)
        ensures
            id.raw() == 0,
    {
        ObjectId(0)
    }

    /// The wire/storage value of this handle.
    pub closed spec fn raw(self) -> u64 {
        self.0
    }

    /// Creates an object id from its wire/storage value.
    pub fn new(value: u64) -> (id: ObjectId)
        ensures
            id.raw() == value,
    {
        ObjectId(value)
    }

    /// Returns the wire/storage value.
    pub fn get(self) -> (value: u64)
        ensures
            value == self.raw(),
    {
        self.0
    }

    /// Returns true when this id is the reserved invalid sentinel.
    pub fn is_invalid(self) -> (invalid: bool)
        ensures
            invalid == (self.raw() == 0),
    {
        self.0 == 0
    }
}

/// Two object ids are equal exactly when their raw values are.
pub broadcast proof fn lemma_object_id_raw_injective(a: ObjectId, b: ObjectId)
    ensures
        (#[trigger] a.raw() == #[trigger] b.raw()) <==> a == b,
{
}

/// Hands out stable object ids in deterministic creation order.
#[derive(Clone, Debug, Default, PartialEq, Eq)]
pub struct ObjectStore {
    ids: Vec<ObjectId>,
    next_id: u64,
}

impl ObjectStore {
    /// Live object ids in creation/registration order.
    pub closed spec fn view(&self) -> Seq<ObjectId> {
        self.ids@
    }

    /// The raw value that the next call of `create` hands out.
    pub closed spec fn next_raw(&self) -> u64 {
        self.next_id
    }

    /// Internal consistency: live ids are valid, distinct, and below the allocation cursor.
    pub closed spec fn wf(&self) -> bool {
        &&& self.next_id >= 1
        &&& forall|i: int| 0 <= i < self.ids@.len() ==> #[trigger] self.ids@[i].raw() != 0
        &&& forall|i: int| 0 <= i < self.ids@.len() ==> #[trigger] self.ids@[i].raw() < self.next_id
        &&& self.ids@.no_duplicates()
    }

    /// Every live id is below the cursor that the next created id takes, so a destroyed id is
    /// never handed out again.
    pub proof fn lemma_live_ids_below_cursor(&self, id: ObjectId)
        requires
            self.wf(),
            self@.contains(id),
        ensures
            id.raw() < self.next_raw(),
            id.raw() != 0,
    {
        let k = choose|k: int| 0 <= k < self.ids@.len() && self.ids@[k] == id;
        assert(self.ids@[k].raw() < self.next_id);
    }

    /// A destroyed id is no longer live.
    pub proof fn lemma_destroyed_not_live(&self, id: ObjectId)
        requires
            self.wf(),
            self@.contains(id),
        ensures
            !self@.remove(self@.index_of(id)).contains(id),
    {
        let s = self.ids@;
        let p = s.index_of(id);
        let after = s.remove(p);
        if after.contains(id) {
            let q = choose|q: int| 0 <= q < after.len() && after[q] == id;
            let oq = if q < p { q } else { q + 1 };
            assert(after[q] == s[oq]);
            assert(s[p] == id);
        }
    }

    /// Creates an empty object store. Generated ids start at 1.
    pub fn new() -> (store: ObjectStore)
        ensures
            store.wf(),
            store@ == Seq::<ObjectId>::empty(),
            store.next_raw() == 1,
    {
        ObjectStore { ids: Vec::new(), next_id: 1 }
    }

    /// Allocates a new deterministic object handle.
    pub fn create(&mut self) -> (id: ObjectId)
        requires
            old(self).wf(),
            old(self).next_raw() < u64::MAX,
        ensures
            final(self).wf(),
            id.raw() == old(self).next_raw(),
            !old(self)@.contains(id),
            final(self)@ == old(self)@.push(id),
            final(self).next_raw() == old(self).next_raw() + 1,
    {
        broadcast use lemma_object_id_raw_injective;
        let id = ObjectId(self.next_id);
        assert(!self.ids@.contains(id)) by {
            if self.ids@.contains(id) {
                let k = choose|k: int| 0 <= k < self.ids@.len() && self.ids@[k] == id;
                assert(self.ids@[k].raw() < self.next_id);
            }
        }
        self.ids.push(id);
        self.next_id = self.next_id + 1;
        proof {
            assert forall|i: int, j: int| 0 <= i < j < self.ids@.len() implies self.ids@[i] != self.ids@[j] by {
                if j == self.ids@.len() - 1 {
                    assert(old(self).ids@[i].raw() < old(self).next_id);
                } else {
                    assert(old(self).ids@.no_duplicates());
                }
            }
        }
        id
    }

    /// Registers an externally assigned object handle in iteration order.
    pub fn create_with_id(&mut self, id: ObjectId) -> (result: Result<ObjectId, CoreError>)
        requires
            old(self).wf(),
            id.raw() < u64::MAX || old(self)@.contains(id),
        ensures
            final(self).wf(),
            id.raw() == 0 ==> result == Err::<ObjectId, CoreError>(CoreError::InvalidObjectId)
                && final(self)@ == old(self)@ && final(self).next_raw() == old(self).next_raw(),
            id.raw() != 0 && old(self)@.contains(id) ==> result == Err::<ObjectId, CoreError>(
                CoreError::ObjectIdAlreadyExists,
            ) && final(self)@ == old(self)@ && final(self).next_raw() == old(self).next_raw(),
            id.raw() != 0 && !old(self)@.contains(id) ==> result == Ok::<ObjectId, CoreError>(id)
                && final(self)@ == old(self)@.push(id) && final(self).next_raw() == (if id.raw()
                >= old(self).next_raw() {
                (id.raw() + 1) as u64
            } else {
                old(self).next_raw()
            }),
    {
        if id.is_invalid() {
            return Err(CoreError::InvalidObjectId);
        }
        if self.is_live(id) {
            return Err(CoreError::ObjectIdAlreadyExists);
        }
        self.ids.push(id);
        if id.get() >= self.next_id {
            self.next_id = id.get() + 1;
        }
        proof {
            assert forall|i: int, j: int| 0 <= i < j < self.ids@.len() implies self.ids@[i] != self.ids@[j] by {
                if j == self.ids@.len() - 1 {
                    assert(old(self).ids@[i] != id);
                } else {
                    assert(old(self).ids@.no_duplicates());
                }
            }
            assert forall|i: int| 0 <= i < self.ids@.len() implies #[trigger] self.ids@[i].raw() < self.next_id by {
                if i < self.ids@.len() - 1 {
                    assert(old(self).ids@[i].raw() < old(self).next_id);
                }
            }
        }
        Ok(id)
    }

    /// Removes a live object handle, preserving the order of the remaining handles.
    pub fn destroy(&mut self, id: ObjectId) -> (result: Result<ObjectId, CoreError>)
        requires
            old(self).wf(),
        ensures
            final(self).wf(),
            final(self).next_raw() == old(self).next_raw(),
            !(id.raw() != 0 && old(self)@.contains(id)) ==> result == Err::<ObjectId, CoreError>(
                CoreError::InvalidObjectId,
            ) && final(self)@ == old(self)@,
            id.raw() != 0 && old(self)@.contains(id) ==> result == Ok::<ObjectId, CoreError>(id)
                && final(self)@ == old(self)@.remove(old(self)@.index_of(id)),
    {
        if id.is_invalid() {
            return Err(CoreError::InvalidObjectId);
        }
        broadcast use lemma_object_id_raw_injective;
        let mut index: usize = 0;
        while index < self.ids.len()
            invariant_except_break
                0 <= index <= self.ids@.len(),
                forall|k: int| 0 <= k < index ==> self.ids@[k] != id,
            ensures
                0 <= index <= self.ids@.len(),
                forall|k: int| 0 <= k < index ==> self.ids@[k] != id,
                index < self.ids@.len() ==> self.ids@[index as int] == id,
            decreases self.ids@.len() - index,
        {
            if self.ids[index].get() == id.get() {
                break;
            }
            index = index + 1;
        }
        if index == self.ids.len() {
            assert(!self.ids@.contains(id));
            return Err(CoreError::InvalidObjectId);
        }
        proof {
            assert(self.ids@[index as int] == id);
            assert(self.ids@.contains(id));
            let c = self.ids@.index_of(id);
            assert(0 <= c < self.ids@.len() && self.ids@[c] == id);
            assert(c == index as int);
        }
        self.ids.remove(index);
        proof {
            assert forall|i: int, j: int| 0 <= i < j < self.ids@.len() implies self.ids@[i] != self.ids@[j] by {
                let oi = if i < index { i } else { i + 1 };
                let oj = if j < index { j } else { j + 1 };
                assert(old(self).ids@[oi] != old(self).ids@[oj]);
            }
            assert forall|i: int| 0 <= i < self.ids@.len() implies #[trigger] self.ids@[i].raw() < self.next_id && self.ids@[i].raw() != 0 by {
                let oi = if i < index { i } else { i + 1 };
                assert(old(self).ids@[oi].raw() < old(self).next_id);
                assert(old(self).ids@[oi].raw() != 0);
            }
        }
        Ok(id)
    }

    /// Returns true when `id` is live in this store.
    pub fn is_live(&self, id: ObjectId) -> (live: bool)
        ensures
            live == (id.raw() != 0 && self@.contains(id)),
    {
        if id.is_invalid() {
            return false;
        }
        broadcast use lemma_object_id_raw_injective;
        let mut index: usize = 0;
        while index < self.ids.len()
            invariant
                id.raw() != 0,
                0 <= index <= self.ids@.len(),
                forall|k: int| 0 <= k < index ==> self.ids@[k] != id,
            decreases self.ids@.len() - index,
        {
            if self.ids[index].get() == id.get() {
                assert(self.ids@[index as int] == id);
                return true;
            }
            index = index + 1;
        }
        false
    }

    /// Object ids in creation/registration order.
    pub fn iter(&self) -> (ids: &[ObjectId])
        ensures
            ids@ == self@,
    {
        self.ids.as_slice()
    }

    /// Number of live object handles.
    pub fn count(&self) -> (n: usize)
        ensures
            n == self@.len(),
    {
        self.ids.len()
    }

    /// Returns true when no objects have been created.
    pub fn is_empty(&self) -> (empty: bool)
        ensures
            empty == (self@.len() == 0),
    {
        self.ids.len() == 0
    }
}

} // verus!
