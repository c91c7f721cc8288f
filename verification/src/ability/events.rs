//! Ability lifecycle facts, owned and borrowed.
use vstd::prelude::*;

use super::ids::{AbilityActivationId, AbilityId};
use crate::identity::ObjectId;
use crate::text::{opt_str_view, opt_string_view, to_owned_key, as_key_ref};

verus! {

/// Public lifecycle rejection reason.
#[derive(Clone, Copy, Debug, PartialEq, Eq, Structural)]
pub enum AbilityActivationRejectionReason {
    MissingAbility,
    InvalidOwner,
    OwnerMismatch,
    Blocked,
    Gate,
}

/// Activation attempt lifecycle fact.
#[derive(Clone, Debug, PartialEq, Eq)]
pub struct AbilityActivationAttempt<Tags, Payload> {
    pub ability_id: AbilityId,
    pub definition_key: Option<String>,
    pub owner_id: ObjectId,
    pub tags: Tags,
    pub payload: Payload,
}

/// Borrowed activation attempt lifecycle fact.
#[derive(Debug)]
pub struct AbilityActivationAttemptView<'event, Tags, Payload> {
    pub ability_id: AbilityId,
    pub definition_key: Option<&'event str>,
    pub owner_id: ObjectId,
    pub tags: &'event Tags,
    pub payload: &'event Payload,
}

impl<'event, Tags, Payload> Clone for AbilityActivationAttemptView<'event, Tags, Payload> {
    fn clone(&self) -> (copy: Self)
        ensures
            copy == *self,
    {
        *self
    }
}

impl<'event, Tags, Payload> Copy for AbilityActivationAttemptView<'event, Tags, Payload> {

}

impl<'event, Tags: Clone, Payload: Clone> AbilityActivationAttemptView<'event, Tags, Payload> {
    pub fn to_owned_attempt(&self) -> (attempt: AbilityActivationAttempt<Tags, Payload>)
        ensures
            attempt.ability_id == self.ability_id,
            opt_string_view(attempt.definition_key) == opt_str_view(self.definition_key),
            attempt.owner_id == self.owner_id,
            cloned(*self.tags, attempt.tags),
            cloned(*self.payload, attempt.payload),
    {
        AbilityActivationAttempt {
            ability_id: self.ability_id,
            definition_key: to_owned_key(self.definition_key),
            owner_id: self.owner_id,
            tags: self.tags.clone(),
            payload: self.payload.clone(),
        }
    }
}

/// Activation rejection lifecycle fact.
#[derive(Clone, Debug, PartialEq, Eq)]
pub struct AbilityActivationRejection<Tags, Payload> {
    pub attempt: Option<AbilityActivationAttempt<Tags, Payload>>,
    pub reason: AbilityActivationRejectionReason,
}

/// Borrowed activation rejection lifecycle fact.
#[derive(Debug)]
pub struct AbilityActivationRejectionView<'event, Tags, Payload> {
    pub attempt: Option<AbilityActivationAttemptView<'event, Tags, Payload>>,
    pub reason: AbilityActivationRejectionReason,
}

impl<'event, Tags, Payload> Clone for AbilityActivationRejectionView<'event, Tags, Payload> {
    fn clone(&self) -> (copy: Self)
        ensures
            copy == *self,
    {
        *self
    }
}

impl<'event, Tags, Payload> Copy for AbilityActivationRejectionView<'event, Tags, Payload> {

}

impl<'event, Tags: Clone, Payload: Clone> AbilityActivationRejectionView<'event, Tags, Payload> {
    pub fn to_owned_rejection(&self) -> (rejection: AbilityActivationRejection<Tags, Payload>)
        ensures
            rejection.reason == self.reason,
            rejection.attempt is Some <==> self.attempt is Some,
            self.attempt matches Some(view) ==> ({
                let owned = rejection.attempt->0;
                &&& owned.ability_id == view.ability_id
                &&& opt_string_view(owned.definition_key) == opt_str_view(view.definition_key)
                &&& owned.owner_id == view.owner_id
                &&& cloned(*view.tags, owned.tags)
                &&& cloned(*view.payload, owned.payload)
            }),
    {
        let attempt = match &self.attempt {
            Some(view) => Some(view.to_owned_attempt()),
            None => None,
        };
        AbilityActivationRejection { attempt, reason: self.reason }
    }
}

/// Active ability execution state.
#[derive(Clone, Debug, PartialEq, Eq)]
pub struct ActiveAbility<Tags, Payload> {
    pub activation_id: AbilityActivationId,
    pub ability_id: AbilityId,
    pub definition_key: Option<String>,
    pub owner_id: ObjectId,
    pub tags: Tags,
    pub payload: Payload,
    pub committed: bool,
}

impl<Tags, Payload> ActiveAbility<Tags, Payload> {
    /// Returns the domain-neutral source object for effects derived from this activation.
    pub fn source_id(&self) -> (source: ObjectId)
        ensures
            source == self.owner_id,
    {
        self.owner_id
    }
}

/// Borrowed active ability execution state.
#[derive(Debug)]
pub struct ActiveAbilityView<'event, Tags, Payload> {
    pub activation_id: AbilityActivationId,
    pub ability_id: AbilityId,
    pub definition_key: Option<&'event str>,
    pub owner_id: ObjectId,
    pub tags: &'event Tags,
    pub payload: &'event Payload,
    pub committed: bool,
}

impl<'event, Tags, Payload> Clone for ActiveAbilityView<'event, Tags, Payload> {
    fn clone(&self) -> (copy: Self)
        ensures
            copy == *self,
    {
        *self
    }
}

impl<'event, Tags, Payload> Copy for ActiveAbilityView<'event, Tags, Payload> {

}

/// The borrowed view mirrors the owned record field for field.
pub open spec fn views_active<Tags, Payload>(
    view: ActiveAbilityView<'_, Tags, Payload>,
    active: ActiveAbility<Tags, Payload>,
) -> bool {
    &&& view.activation_id == active.activation_id
    &&& view.ability_id == active.ability_id
    &&& opt_str_view(view.definition_key) == opt_string_view(active.definition_key)
    &&& view.owner_id == active.owner_id
    &&& *view.tags == active.tags
    &&& *view.payload == active.payload
    &&& view.committed == active.committed
}

impl<'event, Tags, Payload> ActiveAbilityView<'event, Tags, Payload> {
    /// Borrows an active ability record as a view.
    pub fn from_active(active: &'event ActiveAbility<Tags, Payload>) -> (view: Self)
        ensures
            views_active(view, *active),
    {
        ActiveAbilityView {
            activation_id: active.activation_id,
            ability_id: active.ability_id,
            definition_key: as_key_ref(&active.definition_key),
            owner_id: active.owner_id,
            tags: &active.tags,
            payload: &active.payload,
            committed: active.committed,
        }
    }

    pub fn attempt_view(&self) -> (attempt: AbilityActivationAttemptView<'event, Tags, Payload>)
        ensures
            attempt.ability_id == self.ability_id,
            attempt.definition_key == self.definition_key,
            attempt.owner_id == self.owner_id,
            attempt.tags == self.tags,
            attempt.payload == self.payload,
    {
        AbilityActivationAttemptView {
            ability_id: self.ability_id,
            definition_key: self.definition_key,
            owner_id: self.owner_id,
            tags: self.tags,
            payload: self.payload,
        }
    }

    /// Returns the domain-neutral source object for effects derived from this activation.
    pub fn source_id(&self) -> (source: ObjectId)
        ensures
            source == self.owner_id,
    {
        self.owner_id
    }
}

impl<'event, Tags: Clone, Payload: Clone> ActiveAbilityView<'event, Tags, Payload> {
    pub fn to_owned_active(&self) -> (active: ActiveAbility<Tags, Payload>)
        ensures
            active.activation_id == self.activation_id,
            active.ability_id == self.ability_id,
            opt_string_view(active.definition_key) == opt_str_view(self.definition_key),
            active.owner_id == self.owner_id,
            cloned(*self.tags, active.tags),
            cloned(*self.payload, active.payload),
            active.committed == self.committed,
    {
        ActiveAbility {
            activation_id: self.activation_id,
            ability_id: self.ability_id,
            definition_key: to_owned_key(self.definition_key),
            owner_id: self.owner_id,
            tags: self.tags.clone(),
            payload: self.payload.clone(),
            committed: self.committed,
        }
    }
}

/// Ability lifecycle events.
#[derive(Clone, Debug, PartialEq, Eq)]
pub enum AbilityLifecycleEvent<Tags, Payload> {
    Attempted(AbilityActivationAttempt<Tags, Payload>),
    Rejected(AbilityActivationRejection<Tags, Payload>),
    Committed(ActiveAbility<Tags, Payload>),
    Started(ActiveAbility<Tags, Payload>),
    Canceled(ActiveAbility<Tags, Payload>),
    Revoked(ActiveAbility<Tags, Payload>),
    RolledBack(ActiveAbility<Tags, Payload>),
    Ended(ActiveAbility<Tags, Payload>),
}

/// Borrowed ability lifecycle event for streaming paths.
#[derive(Debug)]
pub enum AbilityLifecycleEventView<'event, Tags, Payload> {
    Attempted(AbilityActivationAttemptView<'event, Tags, Payload>),
    Rejected(AbilityActivationRejectionView<'event, Tags, Payload>),
    Committed(ActiveAbilityView<'event, Tags, Payload>),
    Started(ActiveAbilityView<'event, Tags, Payload>),
    Canceled(ActiveAbilityView<'event, Tags, Payload>),
    Revoked(ActiveAbilityView<'event, Tags, Payload>),
    RolledBack(ActiveAbilityView<'event, Tags, Payload>),
    Ended(ActiveAbilityView<'event, Tags, Payload>),
}

/// Which lifecycle transition a fact reports.
#[derive(Clone, Copy, Debug, PartialEq, Eq, Structural)]
pub enum AbilityFactKind {
    Attempted,
    Rejected(AbilityActivationRejectionReason),
    Committed,
    Started,
    Canceled,
    Revoked,
    RolledBack,
    Ended,
}

/// One emitted ability lifecycle fact, with everything it carries but its tags and payload,
/// used to state what is reported and in which order.
pub struct AbilityFact {
    pub kind: AbilityFactKind,
    pub ability_id: Option<AbilityId>,
    pub activation_id: Option<AbilityActivationId>,
    pub key: Option<Seq<char>>,
    pub owner_id: Option<ObjectId>,
    pub committed: bool,
}

/// What a fact reports of the borrowed attempt `attempt` under `kind`.
pub open spec fn attempt_fact<Tags, Payload>(
    kind: AbilityFactKind,
    attempt: AbilityActivationAttemptView<'_, Tags, Payload>,
) -> AbilityFact {
    AbilityFact {
        kind,
        ability_id: Some(attempt.ability_id),
        activation_id: None,
        key: opt_str_view(attempt.definition_key),
        owner_id: Some(attempt.owner_id),
        committed: false,
    }
}

/// The fact a borrowed ability lifecycle event reports.
pub open spec fn ability_fact<Tags, Payload>(event: AbilityLifecycleEventView<'_, Tags, Payload>) -> AbilityFact {
    match event {
        AbilityLifecycleEventView::Attempted(a) => attempt_fact(AbilityFactKind::Attempted, a),
        AbilityLifecycleEventView::Rejected(r) => match r.attempt {
            Some(a) => attempt_fact(AbilityFactKind::Rejected(r.reason), a),
            None => AbilityFact {
                kind: AbilityFactKind::Rejected(r.reason),
                ability_id: None,
                activation_id: None,
                key: None,
                owner_id: None,
                committed: false,
            },
        },
        AbilityLifecycleEventView::Committed(a) => active_fact(AbilityFactKind::Committed, a),
        AbilityLifecycleEventView::Started(a) => active_fact(AbilityFactKind::Started, a),
        AbilityLifecycleEventView::Canceled(a) => active_fact(AbilityFactKind::Canceled, a),
        AbilityLifecycleEventView::Revoked(a) => active_fact(AbilityFactKind::Revoked, a),
        AbilityLifecycleEventView::RolledBack(a) => active_fact(AbilityFactKind::RolledBack, a),
        AbilityLifecycleEventView::Ended(a) => active_fact(AbilityFactKind::Ended, a),
    }
}

/// What a transition fact reports of the borrowed activation `active`.
pub open spec fn active_fact<Tags, Payload>(
    kind: AbilityFactKind,
    active: ActiveAbilityView<'_, Tags, Payload>,
) -> AbilityFact {
    AbilityFact {
        kind,
        ability_id: Some(active.ability_id),
        activation_id: Some(active.activation_id),
        key: opt_str_view(active.definition_key),
        owner_id: Some(active.owner_id),
        committed: active.committed,
    }
}

/// What a transition fact reports of the owned activation record `active`.
pub open spec fn active_record_fact<Tags, Payload>(
    kind: AbilityFactKind,
    active: ActiveAbility<Tags, Payload>,
) -> AbilityFact {
    AbilityFact {
        kind,
        ability_id: Some(active.ability_id),
        activation_id: Some(active.activation_id),
        key: opt_string_view(active.definition_key),
        owner_id: Some(active.owner_id),
        committed: active.committed,
    }
}

impl<'event, Tags: Clone, Payload: Clone> AbilityLifecycleEventView<'event, Tags, Payload> {
    pub fn to_owned_event(&self) -> (event: AbilityLifecycleEvent<Tags, Payload>)
        ensures
            owned_ability_event_matches(event, *self),
    {
        match self {
            AbilityLifecycleEventView::Attempted(attempt) => AbilityLifecycleEvent::Attempted(
                attempt.to_owned_attempt(),
            ),
            AbilityLifecycleEventView::Rejected(rejection) => AbilityLifecycleEvent::Rejected(
                rejection.to_owned_rejection(),
            ),
            AbilityLifecycleEventView::Committed(active) => AbilityLifecycleEvent::Committed(
                active.to_owned_active(),
            ),
            AbilityLifecycleEventView::Started(active) => AbilityLifecycleEvent::Started(
                active.to_owned_active(),
            ),
            AbilityLifecycleEventView::Canceled(active) => AbilityLifecycleEvent::Canceled(
                active.to_owned_active(),
            ),
            AbilityLifecycleEventView::Revoked(active) => AbilityLifecycleEvent::Revoked(
                active.to_owned_active(),
            ),
            AbilityLifecycleEventView::RolledBack(active) => AbilityLifecycleEvent::RolledBack(
                active.to_owned_active(),
            ),
            AbilityLifecycleEventView::Ended(active) => AbilityLifecycleEvent::Ended(
                active.to_owned_active(),
            ),
        }
    }
}

/// An owned active record carries the same identity as a borrowed one.
pub open spec fn owned_active_matches<Tags: Clone, Payload: Clone>(
    owned: ActiveAbility<Tags, Payload>,
    view: ActiveAbilityView<'_, Tags, Payload>,
) -> bool {
    &&& owned.activation_id == view.activation_id
    &&& owned.ability_id == view.ability_id
    &&& opt_string_view(owned.definition_key) == opt_str_view(view.definition_key)
    &&& owned.owner_id == view.owner_id
    &&& cloned(*view.tags, owned.tags)
    &&& cloned(*view.payload, owned.payload)
    &&& owned.committed == view.committed
}

/// An owned attempt carries the same identity as a borrowed one.
pub open spec fn owned_attempt_matches<Tags: Clone, Payload: Clone>(
    owned: AbilityActivationAttempt<Tags, Payload>,
    view: AbilityActivationAttemptView<'_, Tags, Payload>,
) -> bool {
    &&& owned.ability_id == view.ability_id
    &&& opt_string_view(owned.definition_key) == opt_str_view(view.definition_key)
    &&& owned.owner_id == view.owner_id
    &&& cloned(*view.tags, owned.tags)
    &&& cloned(*view.payload, owned.payload)
}

/// The owned event is the same variant as the borrowed one and carries the same data.
pub open spec fn owned_ability_event_matches<Tags: Clone, Payload: Clone>(
    owned: AbilityLifecycleEvent<Tags, Payload>,
    view: AbilityLifecycleEventView<'_, Tags, Payload>,
) -> bool {
    match (owned, view) {
        (AbilityLifecycleEvent::Attempted(o), AbilityLifecycleEventView::Attempted(v)) => owned_attempt_matches(o, v),
        (AbilityLifecycleEvent::Rejected(o), AbilityLifecycleEventView::Rejected(v)) => {
            &&& o.reason == v.reason
            &&& (o.attempt is Some <==> v.attempt is Some)
            &&& v.attempt matches Some(va) ==> owned_attempt_matches(o.attempt->0, va)
        },
        (AbilityLifecycleEvent::Committed(o), AbilityLifecycleEventView::Committed(v)) => owned_active_matches(o, v),
        (AbilityLifecycleEvent::Started(o), AbilityLifecycleEventView::Started(v)) => owned_active_matches(o, v),
        (AbilityLifecycleEvent::Canceled(o), AbilityLifecycleEventView::Canceled(v)) => owned_active_matches(o, v),
        (AbilityLifecycleEvent::Revoked(o), AbilityLifecycleEventView::Revoked(v)) => owned_active_matches(o, v),
        (AbilityLifecycleEvent::RolledBack(o), AbilityLifecycleEventView::RolledBack(v)) => owned_active_matches(o, v),
        (AbilityLifecycleEvent::Ended(o), AbilityLifecycleEventView::Ended(v)) => owned_active_matches(o, v),
        _ => false,
    }
}

} // verus!
