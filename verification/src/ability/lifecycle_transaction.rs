//! Transitions of an active activation and the facts they emit.
use vstd::prelude::*;

use super::events::{
    ability_fact, active_record_fact, AbilityFactKind, AbilityLifecycleEventView, ActiveAbility,
    ActiveAbilityView, views_active,
};
use super::hooks::AbilityLifecycleSink;

verus! {

/// A state change of one active activation.
#[derive(Clone, Copy, Debug, PartialEq, Eq, Structural)]
pub enum ActiveAbilityTransition {
    Started,
    Committed,
    Canceled,
    Revoked,
    RolledBack,
    Ended,
}

/// The fact kind a transition reports.
pub open spec fn transition_fact_kind(transition: ActiveAbilityTransition) -> AbilityFactKind {
    match transition {
        ActiveAbilityTransition::Started => AbilityFactKind::Started,
        ActiveAbilityTransition::Committed => AbilityFactKind::Committed,
        ActiveAbilityTransition::Canceled => AbilityFactKind::Canceled,
        ActiveAbilityTransition::Revoked => AbilityFactKind::Revoked,
        ActiveAbilityTransition::RolledBack => AbilityFactKind::RolledBack,
        ActiveAbilityTransition::Ended => AbilityFactKind::Ended,
    }
}

impl ActiveAbilityTransition {
    /// The borrowed lifecycle fact reporting this transition of `active`.
    pub fn event<'event, Tags, Payload>(self, active: &'event ActiveAbility<Tags, Payload>) -> (event:
        AbilityLifecycleEventView<'event, Tags, Payload>)
        ensures
            ability_fact(event) == active_record_fact(transition_fact_kind(self), *active),
    {
        let view = ActiveAbilityView::from_active(active);
        match self {
            ActiveAbilityTransition::Started => AbilityLifecycleEventView::Started(view),
            ActiveAbilityTransition::Committed => AbilityLifecycleEventView::Committed(view),
            ActiveAbilityTransition::Canceled => AbilityLifecycleEventView::Canceled(view),
            ActiveAbilityTransition::Revoked => AbilityLifecycleEventView::Revoked(view),
            ActiveAbilityTransition::RolledBack => AbilityLifecycleEventView::RolledBack(view),
            ActiveAbilityTransition::Ended => AbilityLifecycleEventView::Ended(view),
        }
    }
}

/// Emits the fact reporting `transition` of `active` into `sink`.
pub fn emit_active_transition<Tags, Payload, Sink: AbilityLifecycleSink<Tags, Payload>>(
    transition: ActiveAbilityTransition,
    active: &ActiveAbility<Tags, Payload>,
    sink: &mut Sink,
)
    ensures
        final(sink).emitted() == old(sink).emitted().push(
            active_record_fact(transition_fact_kind(transition), *active),
        ),
{
    sink.emit_ability_lifecycle(transition.event(active));
}

} // verus!
