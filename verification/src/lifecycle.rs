//! Domain-neutral lifecycle event kinds and channel definitions.
//!
//! Lifecycle events are raw mechanics facts. Channel definitions validate which
//! fact kinds a named channel accepts; publication stays with the caller.
pub mod channel;
pub mod definition;
pub mod kind;

pub use channel::{EventChannelError, EventRetention};
pub use definition::{
    EventChannelDefinition, EventChannelDefinitionError, EventChannelDefinitions,
    EventChannelRouteDefinition,
};
pub use kind::{LifecycleEvent, LifecycleEventKind};
