//! Stable lifecycle fact kinds.
use vstd::prelude::*;

use crate::ability::events::AbilityLifecycleEvent;
use crate::effect::events::EffectLifecycleEvent;

verus! {

/// Stable lifecycle fact kinds used by event channel payload contracts.
#[derive(Clone, Copy, Debug, PartialEq, Eq, Structural, Hash, PartialOrd, Ord)]
pub enum LifecycleEventKind {
    AttributeChanged,
    DerivedAttributeChanged,
    EffectApplicationAccepted,
    EffectApplicationRejected,
    EffectActiveCreated,
    EffectExecuted,
    EffectPeriodicExecuted,
    EffectAdvanced,
    EffectRemoved,
    EffectExpired,
    SignalReinvoked,
    AbilityActivationAttempted,
    AbilityActivationRejected,
    AbilityActivationCommitted,
    AbilityActivationStarted,
    AbilityActivationCanceled,
    AbilityActivationEnded,
    AbilityActivationRevoked,
    AbilityActivationRolledBack,
}

/// The name of `kind`, as its variant is spelled.
pub open spec fn kind_name(kind: LifecycleEventKind) -> Seq<char> {
    match kind {
        LifecycleEventKind::AttributeChanged => "AttributeChanged"@,
        LifecycleEventKind::DerivedAttributeChanged => "DerivedAttributeChanged"@,
        LifecycleEventKind::EffectApplicationAccepted => "EffectApplicationAccepted"@,
        LifecycleEventKind::EffectApplicationRejected => "EffectApplicationRejected"@,
        LifecycleEventKind::EffectActiveCreated => "EffectActiveCreated"@,
        LifecycleEventKind::EffectExecuted => "EffectExecuted"@,
        LifecycleEventKind::EffectPeriodicExecuted => "EffectPeriodicExecuted"@,
        LifecycleEventKind::EffectAdvanced => "EffectAdvanced"@,
        LifecycleEventKind::EffectRemoved => "EffectRemoved"@,
        LifecycleEventKind::EffectExpired => "EffectExpired"@,
        LifecycleEventKind::SignalReinvoked => "SignalReinvoked"@,
        LifecycleEventKind::AbilityActivationAttempted => "AbilityActivationAttempted"@,
        LifecycleEventKind::AbilityActivationRejected => "AbilityActivationRejected"@,
        LifecycleEventKind::AbilityActivationCommitted => "AbilityActivationCommitted"@,
        LifecycleEventKind::AbilityActivationStarted => "AbilityActivationStarted"@,
        LifecycleEventKind::AbilityActivationCanceled => "AbilityActivationCanceled"@,
        LifecycleEventKind::AbilityActivationEnded => "AbilityActivationEnded"@,
        LifecycleEventKind::AbilityActivationRevoked => "AbilityActivationRevoked"@,
        LifecycleEventKind::AbilityActivationRolledBack => "AbilityActivationRolledBack"@,
    }
}

impl LifecycleEventKind {
    /// The name of this kind, as its variant is spelled.
    pub fn name(&self) -> (name: &'static str)
        ensures
            name@ == kind_name(*self),
    {
        match self {
            LifecycleEventKind::AttributeChanged => "AttributeChanged",
            LifecycleEventKind::DerivedAttributeChanged => "DerivedAttributeChanged",
            LifecycleEventKind::EffectApplicationAccepted => "EffectApplicationAccepted",
            LifecycleEventKind::EffectApplicationRejected => "EffectApplicationRejected",
            LifecycleEventKind::EffectActiveCreated => "EffectActiveCreated",
            LifecycleEventKind::EffectExecuted => "EffectExecuted",
            LifecycleEventKind::EffectPeriodicExecuted => "EffectPeriodicExecuted",
            LifecycleEventKind::EffectAdvanced => "EffectAdvanced",
            LifecycleEventKind::EffectRemoved => "EffectRemoved",
            LifecycleEventKind::EffectExpired => "EffectExpired",
            LifecycleEventKind::SignalReinvoked => "SignalReinvoked",
            LifecycleEventKind::AbilityActivationAttempted => "AbilityActivationAttempted",
            LifecycleEventKind::AbilityActivationRejected => "AbilityActivationRejected",
            LifecycleEventKind::AbilityActivationCommitted => "AbilityActivationCommitted",
            LifecycleEventKind::AbilityActivationStarted => "AbilityActivationStarted",
            LifecycleEventKind::AbilityActivationCanceled => "AbilityActivationCanceled",
            LifecycleEventKind::AbilityActivationEnded => "AbilityActivationEnded",
            LifecycleEventKind::AbilityActivationRevoked => "AbilityActivationRevoked",
            LifecycleEventKind::AbilityActivationRolledBack => "AbilityActivationRolledBack",
        }
    }
}

/// A lifecycle fact that can be routed through a named event channel.
pub trait LifecycleEvent {
    fn lifecycle_event_kind(&self) -> LifecycleEventKind;
}

/// The kind of an effect lifecycle fact: one kind per variant.
pub open spec fn effect_event_kind<Tags, Payload>(event: EffectLifecycleEvent<Tags, Payload>) -> LifecycleEventKind {
    match event {
        EffectLifecycleEvent::ApplicationAccepted(_) => LifecycleEventKind::EffectApplicationAccepted,
        EffectLifecycleEvent::ApplicationRejected(_) => LifecycleEventKind::EffectApplicationRejected,
        EffectLifecycleEvent::ActiveCreated(_) => LifecycleEventKind::EffectActiveCreated,
        EffectLifecycleEvent::Executed(_) => LifecycleEventKind::EffectExecuted,
        EffectLifecycleEvent::PeriodicExecuted(_) => LifecycleEventKind::EffectPeriodicExecuted,
        EffectLifecycleEvent::Advanced(_) => LifecycleEventKind::EffectAdvanced,
        EffectLifecycleEvent::Removed(_) => LifecycleEventKind::EffectRemoved,
        EffectLifecycleEvent::Expired(_) => LifecycleEventKind::EffectExpired,
    }
}

/// The kind of an ability lifecycle fact: one kind per variant.
pub open spec fn ability_event_kind<Tags, Payload>(event: AbilityLifecycleEvent<Tags, Payload>) -> LifecycleEventKind {
    match event {
        AbilityLifecycleEvent::Attempted(_) => LifecycleEventKind::AbilityActivationAttempted,
        AbilityLifecycleEvent::Rejected(_) => LifecycleEventKind::AbilityActivationRejected,
        AbilityLifecycleEvent::Committed(_) => LifecycleEventKind::AbilityActivationCommitted,
        AbilityLifecycleEvent::Started(_) => LifecycleEventKind::AbilityActivationStarted,
        AbilityLifecycleEvent::Canceled(_) => LifecycleEventKind::AbilityActivationCanceled,
        AbilityLifecycleEvent::Revoked(_) => LifecycleEventKind::AbilityActivationRevoked,
        AbilityLifecycleEvent::RolledBack(_) => LifecycleEventKind::AbilityActivationRolledBack,
        AbilityLifecycleEvent::Ended(_) => LifecycleEventKind::AbilityActivationEnded,
    }
}

impl<Tags, Payload> LifecycleEvent for EffectLifecycleEvent<Tags, Payload> {
    fn lifecycle_event_kind(&self) -> (kind: LifecycleEventKind)
        ensures
            kind == effect_event_kind(*self),
    {
        match self {
            EffectLifecycleEvent::ApplicationAccepted(_) => LifecycleEventKind::EffectApplicationAccepted,
            EffectLifecycleEvent::ApplicationRejected(_) => LifecycleEventKind::EffectApplicationRejected,
            EffectLifecycleEvent::ActiveCreated(_) => LifecycleEventKind::EffectActiveCreated,
            EffectLifecycleEvent::Executed(_) => LifecycleEventKind::EffectExecuted,
            EffectLifecycleEvent::PeriodicExecuted(_) => LifecycleEventKind::EffectPeriodicExecuted,
            EffectLifecycleEvent::Advanced(_) => LifecycleEventKind::EffectAdvanced,
            EffectLifecycleEvent::Removed(_) => LifecycleEventKind::EffectRemoved,
            EffectLifecycleEvent::Expired(_) => LifecycleEventKind::EffectExpired,
        }
    }
}

impl<Tags, Payload> LifecycleEvent for AbilityLifecycleEvent<Tags, Payload> {
    fn lifecycle_event_kind(&self) -> (kind: LifecycleEventKind)
        ensures
            kind == ability_event_kind(*self),
    {
        match self {
            AbilityLifecycleEvent::Attempted(_) => LifecycleEventKind::AbilityActivationAttempted,
            AbilityLifecycleEvent::Rejected(_) => LifecycleEventKind::AbilityActivationRejected,
            AbilityLifecycleEvent::Committed(_) => LifecycleEventKind::AbilityActivationCommitted,
            AbilityLifecycleEvent::Started(_) => LifecycleEventKind::AbilityActivationStarted,
            AbilityLifecycleEvent::Canceled(_) => LifecycleEventKind::AbilityActivationCanceled,
            AbilityLifecycleEvent::Revoked(_) => LifecycleEventKind::AbilityActivationRevoked,
            AbilityLifecycleEvent::RolledBack(_) => LifecycleEventKind::AbilityActivationRolledBack,
            AbilityLifecycleEvent::Ended(_) => LifecycleEventKind::AbilityActivationEnded,
        }
    }
}

} // verus!
