//! Runtime channel retention policy and emission failures.
use vstd::prelude::*;

use super::kind::{kind_name, LifecycleEventKind};
use crate::text::text4;

verus! {

/// Runtime retention behavior for an event channel.
#[derive(Clone, Copy, Debug, Default, PartialEq, Eq, Structural)]
pub enum EventRetention {
    #[default]
    Drop,
    Retain,
}

/// Runtime channel emission failures.
#[derive(Clone, Debug, PartialEq, Eq)]
pub enum EventChannelError {
    PayloadMismatch { channel_name: String, kind: LifecycleEventKind },
}

impl EventChannelError {
    /// The human-readable description of this error.
    pub open spec fn message_view(&self) -> Seq<char> {
        match *self {
            EventChannelError::PayloadMismatch { channel_name, kind } => "event channel `"@ + channel_name@ + "` does not accept payload kind "@ + kind_name(kind),
        }
    }

    /// Describes this error for people.
    pub fn message(&self) -> (text: String)
        ensures
            text@ == self.message_view(),
    {
        match self {
            EventChannelError::PayloadMismatch { channel_name, kind } => text4("event channel `", channel_name.as_str(), "` does not accept payload kind ", kind.name()),
        }
    }
}

} // verus!
