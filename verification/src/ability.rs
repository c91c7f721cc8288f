//! Domain-neutral ability primitive.
pub mod activation_request;
pub mod definition;
pub mod events;
pub mod hooks;
pub mod ids;
pub mod indexed_store;
pub mod laws;
pub mod lifecycle_transaction;
pub mod operation;
pub mod store;
pub mod results;

pub use definition::{
    AbilityDefinition, AbilityDefinitionError, AbilityDefinitionRegistryError, AbilityDefinitions,
};
pub use events::{
    AbilityActivationAttempt, AbilityActivationAttemptView, AbilityActivationRejection,
    AbilityActivationRejectionReason, AbilityActivationRejectionView, AbilityLifecycleEvent,
    AbilityLifecycleEventView, ActiveAbility, ActiveAbilityView,
};
pub use ids::{AbilityActivationId, AbilityId};
pub use results::{
    AbilityBeginError, AbilityCancelOutcome, AbilityCommitError, AbilityCommitOutcome,
    AbilityEndError, AbilityEndOutcome, AbilityError, AbilityGrantError, AbilityRollbackError,
    AbilityRollbackOutcome, RegisteredAbilityActivationError,
};
pub use hooks::{
    AbilityActivationDecision, AbilityActivationExecutor, AbilityActivationGate,
    AbilityCommitAction, AbilityCommitActionExecutor, AbilityCommitExecutor, AbilityGateExecutor,
    AbilityLifecycleListener, AbilityLifecycleSink, AllowActivation, DiscardAbilityLifecycleEvents,
    ListenedAbilityLifecycleEvents,
    NoAbilityActivationExecutor, NoAbilityCommitExecutor, NoCommitAction,
};
pub use store::{AbilityStore, Grant, GrantedAbility, RevokedOwnerAbilities};
pub use operation::{AbilityActivation, AbilityActivationError, AbilityCommit};
