//! Refresh commands for derived attributes.
//!
//! The derived attribute channel itself computes signed floating-point values and lives with
//! the caller; this module holds the command that selects what a refresh does.
use vstd::prelude::*;

use crate::identity::ObjectId;

verus! {

/// Derived attribute refresh command builder.
#[derive(Clone, Copy, Debug, PartialEq, Eq)]
pub struct DerivedAttributeRefresh {
    id: ObjectId,
    tracked_only: bool,
}

impl DerivedAttributeRefresh {
    /// The object whose derived value is refreshed.
    pub closed spec fn object(&self) -> ObjectId {
        self.id
    }

    /// Whether only an already tracked value is refreshed.
    pub closed spec fn only_tracked(&self) -> bool {
        self.tracked_only
    }

    /// Refreshes `id`, tracking a value it did not have yet.
    pub fn new(id: ObjectId) -> (refresh: DerivedAttributeRefresh)
        ensures
            refresh.object() == id,
            !refresh.only_tracked(),
    {
        DerivedAttributeRefresh { id, tracked_only: false }
    }

    /// Refreshes `id` only when its value is already tracked.
    pub fn of_tracked(id: ObjectId) -> (refresh: DerivedAttributeRefresh)
        ensures
            refresh.object() == id,
            refresh.only_tracked(),
    {
        DerivedAttributeRefresh { id, tracked_only: true }
    }

    /// Restricts this refresh to already tracked values.
    pub fn tracked_only(self) -> (refresh: DerivedAttributeRefresh)
        ensures
            refresh.object() == self.object(),
            refresh.only_tracked(),
    {
        DerivedAttributeRefresh { tracked_only: true, ..self }
    }

    /// The object whose derived value is refreshed.
    pub fn target(&self) -> (id: ObjectId)
        ensures
            id == self.object(),
    {
        self.id
    }

    /// Whether only an already tracked value is refreshed.
    pub fn is_tracked_only(&self) -> (only: bool)
        ensures
            only == self.only_tracked(),
    {
        self.tracked_only
    }
}

} // verus!
