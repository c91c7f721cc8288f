//! Domain-agnostic mechanics primitives for game and simulation runtimes.
//!
//! Flexweave provides reusable building blocks for object identity, attached data, tags and
//! queries, abilities, active effects, definition registries, caller-defined clock units,
//! lifecycle facts, and signals. It contains no game-specific nouns: callers decide what an
//! object, ability, effect, tag, clock, or payload means in their own domain.
//!
//! `ObjectId`, `AbilityId`, `AbilityActivationId`, and `ActiveEffectId` are newtyped `u64`
//! values allocated in deterministic creation order where Flexweave owns allocation. Stores
//! and queries preserve deterministic iteration where ordering is part of the public contract.
pub mod ability;
pub mod attribute_model;
pub mod clock;
pub mod data_store;
pub mod derived_attribute;
pub mod effect;
pub mod errors;
pub mod identity;
pub mod lifecycle;
pub mod mechanics;
pub mod object_lifecycle;
pub mod object_map;
pub mod query;
pub mod registry;
pub mod signal;
pub mod tag;
pub mod text;

pub use ability::{
    AbilityActivation, AbilityActivationAttempt, AbilityActivationAttemptView,
    AbilityActivationDecision, AbilityActivationError, AbilityActivationId,
    AbilityActivationRejection, AbilityActivationRejectionReason, AbilityActivationRejectionView,
    AbilityCancelOutcome, AbilityCommit, AbilityCommitOutcome, AbilityDefinition,
    AbilityDefinitionError, AbilityDefinitionRegistryError, AbilityDefinitions,
    AbilityEndOutcome, AbilityError, AbilityGrantError, AbilityId, AbilityLifecycleEvent,
    AbilityLifecycleEventView, AbilityStore, ActiveAbility, ActiveAbilityView, Grant,
    GrantedAbility, RegisteredAbilityActivationError, RevokedOwnerAbilities,
};
pub use attribute_model::{AttributeModel, AttributeOperation, AttributeOperationContext};
pub use clock::{Clock, ClockUnits, FixedStepClock, RealtimeClock, RealtimeClockAccumulator};
pub use data_store::DataStore;
pub use derived_attribute::DerivedAttributeRefresh;
pub use effect::{
    ActiveEffectId, EffectAdvance, EffectAdvanceView, EffectApplication,
    EffectApplicationDecision, EffectApplicationDraft, EffectApplicationError,
    EffectApplicationInput, EffectApplicationRejection, EffectApplicationRejectionView,
    EffectApplicationView, EffectApply, EffectApplyError, EffectApplyOutcome, EffectClockPolicy,
    EffectDefinition, EffectDefinitionError, EffectDefinitionRegistryError, EffectDefinitions,
    EffectExecution, EffectExecutionView, EffectInitializer, EffectInstance, EffectInstanceView,
    EffectKind, EffectLifecycleEvent, EffectLifecycleEventView, EffectObjectRemovalPolicy,
    EffectPipeline, EffectRemove, EffectRemoveForObject, EffectRouting, EffectSourcePolicy,
    EffectTick, NoopEffectInitializer,
};
pub use errors::CoreError;
pub use identity::{ObjectId, ObjectStore};
pub use lifecycle::{
    EventChannelDefinition, EventChannelDefinitionError, EventChannelDefinitions,
    EventChannelError, EventChannelRouteDefinition, EventRetention, LifecycleEvent,
    LifecycleEventKind,
};
pub use mechanics::MechanicsTick;
pub use object_lifecycle::ObjectDestroy;
pub use registry::{DefinitionRegistryEntry, Registry, RegistryEntry};
pub use signal::{
    SignalDefinition, SignalDefinitionError, SignalDefinitions, SignalExportPolicy, SignalFact,
    SignalKind, SignalProjection, SignalRemovalReason, SignalRetentionPolicy, SignalTagMatch,
};
pub use tag::{Tag, TagCollection, TagSet, TagSetQuery};
