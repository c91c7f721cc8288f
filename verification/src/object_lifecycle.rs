//! Object destruction commands.
//!
//! Destroying an object removes it from its object store and then cleans up the
//! caller-registered stores keyed by it; the driver that holds those stores belongs to the
//! caller's runtime. This module holds the command.
use vstd::prelude::*;

use crate::identity::ObjectId;

verus! {

/// Object destruction command builder.
#[derive(Clone, Copy, Debug, PartialEq, Eq)]
pub struct ObjectDestroy {
    id: ObjectId,
}

impl ObjectDestroy {
    /// The object to destroy.
    pub closed spec fn object(&self) -> ObjectId {
        self.id
    }

    pub fn new(id: ObjectId) -> (command: ObjectDestroy)
        ensures
            command.object() == id,
    {
        ObjectDestroy { id }
    }

    /// The object to destroy.
    pub fn target(&self) -> (id: ObjectId)
        ensures
            id == self.object(),
    {
        self.id
    }
}

} // verus!
