//! Explicit primitive error set shared by the crate.
use vstd::prelude::*;

use crate::text::text1;

verus! {

/// Domain-neutral primitive errors.
#[derive(Clone, Copy, Debug, PartialEq, Eq, Structural)]
pub enum CoreError {
    MissingRequiredData,
    InvalidObjectId,
    ObjectIdAlreadyExists,
    OutOfMemory,
}

impl CoreError {
    /// The human-readable description of this error.
    pub open spec fn message_view(&self) -> Seq<char> {
        match self {
            CoreError::MissingRequiredData => "missing required data"@,
            CoreError::InvalidObjectId => "invalid object id"@,
            CoreError::ObjectIdAlreadyExists => "object id already exists"@,
            CoreError::OutOfMemory => "out of memory"@,
        }
    }

    /// Describes this error for people.
    pub fn message(&self) -> (text: String)
        ensures
            text@ == self.message_view(),
    {
        let text = match self {
            CoreError::MissingRequiredData => "missing required data",
            CoreError::InvalidObjectId => "invalid object id",
            CoreError::ObjectIdAlreadyExists => "object id already exists",
            CoreError::OutOfMemory => "out of memory",
        };
        text1(text)
    }
}

} // verus!
