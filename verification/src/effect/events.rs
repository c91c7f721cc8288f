//! Effect lifecycle facts, owned and borrowed.
use vstd::prelude::*;

use super::application::{
    EffectApplication, EffectApplicationRejection, EffectApplicationRejectionView,
    EffectApplicationView,
};
use super::definition::EffectClockPolicy;
use super::ids::ActiveEffectId;
use crate::clock::ClockUnits;
use crate::identity::ObjectId;
use crate::tag::TagCollection;
use crate::text::{as_key_ref, opt_str_view, opt_string_view, to_owned_key};

verus! {

/// Runtime effect instance owned by `EffectPipeline`.
#[derive(Clone, Debug, PartialEq, Eq)]
pub struct EffectInstance<Tags, Payload> {
    pub id: ActiveEffectId,
    pub definition_key: Option<String>,
    pub source_id: Option<ObjectId>,
    pub target_id: ObjectId,
    pub remaining_units: Option<ClockUnits>,
    pub period: Option<EffectClockPolicy>,
    pub period_elapsed_units: ClockUnits,
    pub tags: Tags,
    pub payload: Payload,
}

impl<Tags: TagCollection, Payload> EffectInstance<Tags, Payload> {
    pub fn has_tag(&self, tag: &Tags::Tag) -> (present: bool)
        ensures
            Tags::obeys_tag_model() ==> present == self.tags.tag_model(*tag),
    {
        self.tags.has_tag(tag)
    }
}

/// Borrowed view of a runtime effect instance.
#[derive(Debug)]
pub struct EffectInstanceView<'event, Tags, Payload> {
    pub id: ActiveEffectId,
    pub definition_key: Option<&'event str>,
    pub source_id: Option<ObjectId>,
    pub target_id: ObjectId,
    pub remaining_units: Option<ClockUnits>,
    pub period: Option<EffectClockPolicy>,
    pub period_elapsed_units: ClockUnits,
    pub tags: &'event Tags,
    pub payload: &'event Payload,
}

impl<'event, Tags, Payload> Clone for EffectInstanceView<'event, Tags, Payload> {
    fn clone(&self) -> (copy: Self)
        ensures
            copy == *self,
    {
        *self
    }
}

impl<'event, Tags, Payload> Copy for EffectInstanceView<'event, Tags, Payload> {

}

/// The borrowed view mirrors the owned instance field for field.
pub open spec fn views_instance<Tags, Payload>(
    view: EffectInstanceView<'_, Tags, Payload>,
    effect: EffectInstance<Tags, Payload>,
) -> bool {
    &&& view.id == effect.id
    &&& opt_str_view(view.definition_key) == opt_string_view(effect.definition_key)
    &&& view.source_id == effect.source_id
    &&& view.target_id == effect.target_id
    &&& view.remaining_units == effect.remaining_units
    &&& view.period == effect.period
    &&& view.period_elapsed_units == effect.period_elapsed_units
    &&& *view.tags == effect.tags
    &&& *view.payload == effect.payload
}

impl<'event, Tags, Payload> EffectInstanceView<'event, Tags, Payload> {
    /// Borrows an instance as a view.
    pub fn from_instance(effect: &'event EffectInstance<Tags, Payload>) -> (view: Self)
        ensures
            views_instance(view, *effect),
    {
        EffectInstanceView {
            id: effect.id,
            definition_key: as_key_ref(&effect.definition_key),
            source_id: effect.source_id,
            target_id: effect.target_id,
            remaining_units: effect.remaining_units,
            period: effect.period,
            period_elapsed_units: effect.period_elapsed_units,
            tags: &effect.tags,
            payload: &effect.payload,
        }
    }
}

impl<'event, Tags: TagCollection, Payload> EffectInstanceView<'event, Tags, Payload> {
    pub fn has_tag(&self, tag: &Tags::Tag) -> (present: bool)
        ensures
            Tags::obeys_tag_model() ==> present == self.tags.tag_model(*tag),
    {
        self.tags.has_tag(tag)
    }
}

impl<'event, Tags: Clone, Payload: Clone> EffectInstanceView<'event, Tags, Payload> {
    pub fn to_owned_instance(&self) -> (effect: EffectInstance<Tags, Payload>)
        ensures
            effect.id == self.id,
            opt_string_view(effect.definition_key) == opt_str_view(self.definition_key),
            effect.source_id == self.source_id,
            effect.target_id == self.target_id,
            effect.remaining_units == self.remaining_units,
            effect.period == self.period,
            effect.period_elapsed_units == self.period_elapsed_units,
            cloned(*self.tags, effect.tags),
            cloned(*self.payload, effect.payload),
    {
        EffectInstance {
            id: self.id,
            definition_key: to_owned_key(self.definition_key),
            source_id: self.source_id,
            target_id: self.target_id,
            remaining_units: self.remaining_units,
            period: self.period,
            period_elapsed_units: self.period_elapsed_units,
            tags: self.tags.clone(),
            payload: self.payload.clone(),
        }
    }
}

/// Active effect advancement fact for the pipeline.
#[derive(Clone, Debug, PartialEq, Eq)]
pub struct EffectAdvance<Tags, Payload> {
    pub effect: EffectInstance<Tags, Payload>,
    pub elapsed_units: ClockUnits,
    pub previous_remaining_units: Option<ClockUnits>,
}

/// Borrowed active effect advancement fact for streaming emission.
#[derive(Debug)]
pub struct EffectAdvanceView<'event, Tags, Payload> {
    pub effect: EffectInstanceView<'event, Tags, Payload>,
    pub elapsed_units: ClockUnits,
    pub previous_remaining_units: Option<ClockUnits>,
}

impl<'event, Tags, Payload> Clone for EffectAdvanceView<'event, Tags, Payload> {
    fn clone(&self) -> (copy: Self)
        ensures
            copy == *self,
    {
        *self
    }
}

impl<'event, Tags, Payload> Copy for EffectAdvanceView<'event, Tags, Payload> {

}

impl<'event, Tags: Clone, Payload: Clone> EffectAdvanceView<'event, Tags, Payload> {
    pub fn to_owned_advance(&self) -> (advance: EffectAdvance<Tags, Payload>)
        ensures
            advance.effect.id == self.effect.id,
            opt_string_view(advance.effect.definition_key) == opt_str_view(self.effect.definition_key),
            advance.effect.source_id == self.effect.source_id,
            advance.effect.target_id == self.effect.target_id,
            advance.effect.remaining_units == self.effect.remaining_units,
            advance.effect.period == self.effect.period,
            advance.effect.period_elapsed_units == self.effect.period_elapsed_units,
            cloned(*self.effect.tags, advance.effect.tags),
            cloned(*self.effect.payload, advance.effect.payload),
            advance.elapsed_units == self.elapsed_units,
            advance.previous_remaining_units == self.previous_remaining_units,
    {
        EffectAdvance {
            effect: self.effect.to_owned_instance(),
            elapsed_units: self.elapsed_units,
            previous_remaining_units: self.previous_remaining_units,
        }
    }
}

/// Effect execution fact.
#[derive(Clone, Debug, PartialEq, Eq)]
pub struct EffectExecution<Tags, Payload> {
    pub active_effect_id: Option<ActiveEffectId>,
    pub definition_key: Option<String>,
    pub source_id: Option<ObjectId>,
    pub target_id: ObjectId,
    pub tags: Tags,
    pub payload: Payload,
    pub elapsed_units: Option<ClockUnits>,
}

/// Borrowed effect execution fact for streaming emission.
#[derive(Debug)]
pub struct EffectExecutionView<'event, Tags, Payload> {
    pub active_effect_id: Option<ActiveEffectId>,
    pub definition_key: Option<&'event str>,
    pub source_id: Option<ObjectId>,
    pub target_id: ObjectId,
    pub tags: &'event Tags,
    pub payload: &'event Payload,
    pub elapsed_units: Option<ClockUnits>,
}

impl<'event, Tags, Payload> Clone for EffectExecutionView<'event, Tags, Payload> {
    fn clone(&self) -> (copy: Self)
        ensures
            copy == *self,
    {
        *self
    }
}

impl<'event, Tags, Payload> Copy for EffectExecutionView<'event, Tags, Payload> {

}

impl<'event, Tags: Clone, Payload: Clone> EffectExecutionView<'event, Tags, Payload> {
    pub fn to_owned_execution(&self) -> (execution: EffectExecution<Tags, Payload>)
        ensures
            execution.active_effect_id == self.active_effect_id,
            opt_string_view(execution.definition_key) == opt_str_view(self.definition_key),
            execution.source_id == self.source_id,
            execution.target_id == self.target_id,
            cloned(*self.tags, execution.tags),
            cloned(*self.payload, execution.payload),
            execution.elapsed_units == self.elapsed_units,
    {
        EffectExecution {
            active_effect_id: self.active_effect_id,
            definition_key: to_owned_key(self.definition_key),
            source_id: self.source_id,
            target_id: self.target_id,
            tags: self.tags.clone(),
            payload: self.payload.clone(),
            elapsed_units: self.elapsed_units,
        }
    }
}

/// Effect pipeline lifecycle events.
#[derive(Clone, Debug, PartialEq, Eq)]
pub enum EffectLifecycleEvent<Tags, Payload> {
    ApplicationAccepted(EffectApplication<Tags, Payload>),
    ApplicationRejected(EffectApplicationRejection<Tags, Payload>),
    ActiveCreated(EffectInstance<Tags, Payload>),
    Executed(EffectExecution<Tags, Payload>),
    PeriodicExecuted(EffectExecution<Tags, Payload>),
    Advanced(EffectAdvance<Tags, Payload>),
    Removed(EffectInstance<Tags, Payload>),
    Expired(EffectInstance<Tags, Payload>),
}

/// Borrowed effect pipeline lifecycle event for hot streaming paths.
#[derive(Debug)]
pub enum EffectLifecycleEventView<'event, Tags, Payload> {
    ApplicationAccepted(EffectApplicationView<'event, Tags, Payload>),
    ApplicationRejected(EffectApplicationRejectionView<'event, Tags, Payload>),
    ActiveCreated(EffectInstanceView<'event, Tags, Payload>),
    Executed(EffectExecutionView<'event, Tags, Payload>),
    PeriodicExecuted(EffectExecutionView<'event, Tags, Payload>),
    Advanced(EffectAdvanceView<'event, Tags, Payload>),
    Removed(EffectInstanceView<'event, Tags, Payload>),
    Expired(EffectInstanceView<'event, Tags, Payload>),
}

impl<'event, Tags, Payload> Clone for EffectLifecycleEventView<'event, Tags, Payload> {
    fn clone(&self) -> (copy: Self)
        ensures
            copy == *self,
    {
        *self
    }
}

impl<'event, Tags, Payload> Copy for EffectLifecycleEventView<'event, Tags, Payload> {

}

impl<'event, Tags: Clone, Payload: Clone> EffectLifecycleEventView<'event, Tags, Payload> {
    /// An owned copy of this fact; tags and payloads are clones.
    pub fn to_owned_event(&self) -> (event: EffectLifecycleEvent<Tags, Payload>)
        ensures
            owned_effect_event_matches(event, *self),
    {
        match self {
            EffectLifecycleEventView::ApplicationAccepted(application) => {
                EffectLifecycleEvent::ApplicationAccepted(application.to_owned_application())
            },
            EffectLifecycleEventView::ApplicationRejected(rejection) => {
                EffectLifecycleEvent::ApplicationRejected(rejection.to_owned_rejection())
            },
            EffectLifecycleEventView::ActiveCreated(effect) => {
                EffectLifecycleEvent::ActiveCreated(effect.to_owned_instance())
            },
            EffectLifecycleEventView::Executed(execution) => {
                EffectLifecycleEvent::Executed(execution.to_owned_execution())
            },
            EffectLifecycleEventView::PeriodicExecuted(execution) => {
                EffectLifecycleEvent::PeriodicExecuted(execution.to_owned_execution())
            },
            EffectLifecycleEventView::Advanced(advance) => {
                EffectLifecycleEvent::Advanced(advance.to_owned_advance())
            },
            EffectLifecycleEventView::Removed(effect) => {
                EffectLifecycleEvent::Removed(effect.to_owned_instance())
            },
            EffectLifecycleEventView::Expired(effect) => {
                EffectLifecycleEvent::Expired(effect.to_owned_instance())
            },
        }
    }
}

/// An owned instance carries everything a borrowed one does, with cloned tags and payload.
pub open spec fn owned_instance_matches<Tags: Clone, Payload: Clone>(
    owned: EffectInstance<Tags, Payload>,
    view: EffectInstanceView<'_, Tags, Payload>,
) -> bool {
    instance_fact(owned) == instance_view_fact(view) && cloned(*view.tags, owned.tags) && cloned(
        *view.payload,
        owned.payload,
    )
}

/// An owned execution carries everything a borrowed one does, with cloned tags and payload.
pub open spec fn owned_execution_matches<Tags: Clone, Payload: Clone>(
    owned: EffectExecution<Tags, Payload>,
    view: EffectExecutionView<'_, Tags, Payload>,
) -> bool {
    &&& owned.active_effect_id == view.active_effect_id
    &&& opt_string_view(owned.definition_key) == opt_str_view(view.definition_key)
    &&& owned.source_id == view.source_id
    &&& owned.target_id == view.target_id
    &&& owned.elapsed_units == view.elapsed_units
    &&& cloned(*view.tags, owned.tags)
    &&& cloned(*view.payload, owned.payload)
}

/// An owned application carries everything a borrowed one does, with cloned tags and payload.
pub open spec fn owned_application_matches<Tags: Clone, Payload: Clone>(
    owned: EffectApplication<Tags, Payload>,
    view: EffectApplicationView<'_, Tags, Payload>,
) -> bool {
    &&& opt_string_view(owned.definition_key) == opt_str_view(view.definition_key)
    &&& owned.source_id == view.source_id
    &&& owned.target_id == view.target_id
    &&& cloned(*view.tags, owned.tags)
    &&& cloned(*view.payload, owned.payload)
}

/// An owned fact is of the same kind as a borrowed one and carries every field of it, with
/// cloned tags and payloads.
pub open spec fn owned_effect_event_matches<Tags: Clone, Payload: Clone>(
    owned: EffectLifecycleEvent<Tags, Payload>,
    view: EffectLifecycleEventView<'_, Tags, Payload>,
) -> bool {
    match (owned, view) {
        (EffectLifecycleEvent::ApplicationAccepted(a), EffectLifecycleEventView::ApplicationAccepted(v)) =>
            owned_application_matches(a, v),
        (EffectLifecycleEvent::ApplicationRejected(a), EffectLifecycleEventView::ApplicationRejected(v)) =>
            owned_application_matches(a.application, v.application) && a.reason@ == v.reason@,
        (EffectLifecycleEvent::ActiveCreated(a), EffectLifecycleEventView::ActiveCreated(v)) =>
            owned_instance_matches(a, v),
        (EffectLifecycleEvent::Executed(a), EffectLifecycleEventView::Executed(v)) =>
            owned_execution_matches(a, v),
        (EffectLifecycleEvent::PeriodicExecuted(a), EffectLifecycleEventView::PeriodicExecuted(v)) =>
            owned_execution_matches(a, v),
        (EffectLifecycleEvent::Advanced(a), EffectLifecycleEventView::Advanced(v)) =>
            owned_instance_matches(a.effect, v.effect) && a.elapsed_units == v.elapsed_units
                && a.previous_remaining_units == v.previous_remaining_units,
        (EffectLifecycleEvent::Removed(a), EffectLifecycleEventView::Removed(v)) => owned_instance_matches(a, v),
        (EffectLifecycleEvent::Expired(a), EffectLifecycleEventView::Expired(v)) => owned_instance_matches(a, v),
        _ => false,
    }
}

/// What a lifecycle fact reports of an effect instance: its id, key, references, and clocks.
pub struct InstanceFact {
    pub id: ActiveEffectId,
    pub key: Option<Seq<char>>,
    pub source_id: Option<ObjectId>,
    pub target_id: ObjectId,
    pub remaining_units: Option<ClockUnits>,
    pub period: Option<EffectClockPolicy>,
    pub period_elapsed_units: ClockUnits,
}

/// What a lifecycle fact reports of an application: its key and references.
pub struct ApplicationFact {
    pub key: Option<Seq<char>>,
    pub source_id: Option<ObjectId>,
    pub target_id: ObjectId,
}

/// What an execution reports or hands to an action: the active effect (none for an instant
/// execution), its key, references, and the units the execution covers.
pub struct ExecutionFact {
    pub active_effect_id: Option<ActiveEffectId>,
    pub key: Option<Seq<char>>,
    pub source_id: Option<ObjectId>,
    pub target_id: ObjectId,
    pub elapsed_units: Option<ClockUnits>,
}

/// One execution an executor was handed: what it was handed, how many lifecycle facts the
/// executor had emitted before it, and whether the action succeeded.
pub struct ExecutionRecord {
    pub execution: ExecutionFact,
    pub after_facts: nat,
    pub succeeded: bool,
}

/// One emitted effect lifecycle fact, with everything it carries but its tags and payload,
/// used to state what is reported and in which order.
pub enum EffectFact {
    ApplicationAccepted(ApplicationFact),
    ApplicationRejected { application: ApplicationFact, reason: Seq<char> },
    ActiveCreated(InstanceFact),
    Executed(ExecutionFact),
    PeriodicExecuted(ExecutionFact),
    Advanced { effect: InstanceFact, elapsed_units: ClockUnits, previous_remaining_units: Option<ClockUnits> },
    Removed(InstanceFact),
    Expired(InstanceFact),
}

/// What a fact reports of the owned instance `effect`.
pub open spec fn instance_fact<Tags, Payload>(effect: EffectInstance<Tags, Payload>) -> InstanceFact {
    InstanceFact {
        id: effect.id,
        key: opt_string_view(effect.definition_key),
        source_id: effect.source_id,
        target_id: effect.target_id,
        remaining_units: effect.remaining_units,
        period: effect.period,
        period_elapsed_units: effect.period_elapsed_units,
    }
}

/// What a fact reports of the borrowed instance `view`.
pub open spec fn instance_view_fact<Tags, Payload>(view: EffectInstanceView<'_, Tags, Payload>) -> InstanceFact {
    InstanceFact {
        id: view.id,
        key: opt_str_view(view.definition_key),
        source_id: view.source_id,
        target_id: view.target_id,
        remaining_units: view.remaining_units,
        period: view.period,
        period_elapsed_units: view.period_elapsed_units,
    }
}

/// What a fact reports of the borrowed application `view`.
pub open spec fn application_view_fact<Tags, Payload>(view: EffectApplicationView<'_, Tags, Payload>) -> ApplicationFact {
    ApplicationFact { key: opt_str_view(view.definition_key), source_id: view.source_id, target_id: view.target_id }
}

/// What a fact reports of the borrowed execution `view`.
pub open spec fn execution_view_fact<Tags, Payload>(view: EffectExecutionView<'_, Tags, Payload>) -> ExecutionFact {
    ExecutionFact {
        active_effect_id: view.active_effect_id,
        key: opt_str_view(view.definition_key),
        source_id: view.source_id,
        target_id: view.target_id,
        elapsed_units: view.elapsed_units,
    }
}

/// The fact a borrowed effect lifecycle event reports.
pub open spec fn effect_fact<Tags, Payload>(event: EffectLifecycleEventView<'_, Tags, Payload>) -> EffectFact {
    match event {
        EffectLifecycleEventView::ApplicationAccepted(a) => EffectFact::ApplicationAccepted(application_view_fact(a)),
        EffectLifecycleEventView::ApplicationRejected(r) => EffectFact::ApplicationRejected {
            application: application_view_fact(r.application),
            reason: r.reason@,
        },
        EffectLifecycleEventView::ActiveCreated(e) => EffectFact::ActiveCreated(instance_view_fact(e)),
        EffectLifecycleEventView::Executed(x) => EffectFact::Executed(execution_view_fact(x)),
        EffectLifecycleEventView::PeriodicExecuted(x) => EffectFact::PeriodicExecuted(execution_view_fact(x)),
        EffectLifecycleEventView::Advanced(a) => EffectFact::Advanced {
            effect: instance_view_fact(a.effect),
            elapsed_units: a.elapsed_units,
            previous_remaining_units: a.previous_remaining_units,
        },
        EffectLifecycleEventView::Removed(e) => EffectFact::Removed(instance_view_fact(e)),
        EffectLifecycleEventView::Expired(e) => EffectFact::Expired(instance_view_fact(e)),
    }
}

} // verus!
