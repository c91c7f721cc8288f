//! Generic attached-data storage.
use vstd::prelude::*;

use crate::identity::ObjectId;
use crate::object_map::{has_id, position_of, ObjectMap};

verus! {

/// Object-keyed attached data store.
#[derive(Clone, Debug, Default)]
pub struct DataStore<T> {
    values: ObjectMap<T>,
}

impl<T> DataStore<T> {
    /// Attached entries in attachment order.
    pub closed spec fn view(&self) -> Seq<(ObjectId, T)> {
        self.values@
    }

    /// The internal index is consistent.
    pub closed spec fn wf(&self) -> bool {
        self.values.wf()
    }

    /// Creates an empty data store.
    pub fn new() -> (store: DataStore<T>)
        ensures
            store.wf(),
            store@ == Seq::<(ObjectId, T)>::empty(),
    {
        DataStore { values: ObjectMap::new() }
    }

    /// Attaches or overwrites data for `id` without validating object existence.
    pub fn attach(&mut self, id: ObjectId, value: T)
        requires
            old(self).wf(),
        ensures
            final(self).wf(),
            has_id(old(self)@, id) ==> final(self)@ == old(self)@.update(
                position_of(old(self)@, id),
                (id, value),
            ),
            !has_id(old(self)@, id) ==> final(self)@ == old(self)@.push((id, value)),
    {
        self.values.put(id, value);
    }

    /// Detaches data for `id` without validating object existence.
    pub fn detach(&mut self, id: ObjectId) -> (detached: bool)
        requires
            old(self).wf(),
        ensures
            final(self).wf(),
            detached == has_id(old(self)@, id),
            detached ==> final(self)@ == old(self)@.remove(position_of(old(self)@, id)),
            !detached ==> final(self)@ == old(self)@,
    {
        self.values.remove(id)
    }

    /// Returns true when data is attached for `id`.
    pub fn has(&self, id: ObjectId) -> (attached: bool)
        requires
            self.wf(),
        ensures
            attached == has_id(self@, id),
    {
        self.values.contains(id)
    }

    /// Returns attached data for `id`.
    pub fn get(&self, id: ObjectId) -> (value: Option<&T>)
        requires
            self.wf(),
        ensures
            match value {
                Some(v) => has_id(self@, id) && *v == crate::object_map::value_of(self@, id),
                None => !has_id(self@, id),
            },
    {
        self.values.get(id)
    }

    /// Number of attached entries.
    pub fn count(&self) -> (n: usize)
        ensures
            n == self@.len(),
    {
        self.values.count()
    }

    /// Returns true when no data is attached.
    pub fn is_empty(&self) -> (empty: bool)
        ensures
            empty == (self@.len() == 0),
    {
        self.count() == 0
    }
}

} // verus!
