//! Domain-neutral Signal projection from mechanics lifecycle facts.
//!
//! Signals are derived facts for export, runtime reactions, or author-defined
//! semantics. They do not replace source lifecycle facts. The projection works
//! from effect lifecycle facts and active effect instances, and caller code owns
//! any publication into an event channel or an external runtime bus.
pub mod definition;
pub mod facts;
pub mod projection;

pub use definition::{
    SignalDefinition, SignalDefinitionError, SignalDefinitions, SignalExportPolicy, SignalKind,
    SignalRetentionPolicy, SignalTagMatch,
};
pub use facts::{SignalFact, SignalRemovalReason};
pub use projection::SignalProjection;
