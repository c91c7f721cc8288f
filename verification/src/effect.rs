//! Domain-neutral effect lifecycle primitive.
pub mod application;
pub mod definition;
pub mod events;
pub mod ids;

pub use application::{
    DiscardEffectLifecycleEvents, EffectActionExecutor, EffectApplication,
    EffectApplicationDecision, EffectApplicationDraft, EffectApplicationInput,
    EffectApplicationRejection, EffectApplicationRejectionView, EffectApplicationView,
    EffectExecutionAction, EffectExecutor, EffectInitializer, EffectLifecycleListener,
    EffectLifecycleSink, EffectSourcePolicy, ListenedEffectLifecycleEvents, NoEffectExecutor,
    NoopEffectInitializer,
};
pub use definition::{
    EffectClockPolicy, EffectDefinition, EffectDefinitionError, EffectDefinitionRegistryError,
    EffectDefinitions, EffectKind, EffectRouting,
};
pub use events::{
    EffectAdvance, EffectAdvanceView, EffectExecution, EffectExecutionView, EffectInstance,
    EffectInstanceView, EffectLifecycleEvent, EffectLifecycleEventView,
};
pub use ids::ActiveEffectId;
pub mod pipeline;

pub use pipeline::{
    EffectApplicationError, EffectApplyOutcome, EffectObjectRemovalPolicy, EffectPipeline,
};
pub mod operation;

pub use operation::{apply_initialized, EffectApply, EffectApplyError, EffectRemove, EffectRemoveForObject, EffectTick};
pub mod laws;
