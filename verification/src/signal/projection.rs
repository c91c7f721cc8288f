//! Projection of effect lifecycle facts into Signal facts.
use vstd::prelude::*;
use vstd::std_specs::cmp::PartialEqSpec;

use super::definition::{tag_match_holds, SignalDefinition, SignalDefinitions, SignalKind};
use super::facts::{SignalFact, SignalRemovalReason};
use crate::effect::events::{EffectInstance, EffectLifecycleEvent};
use crate::effect::ids::ActiveEffectId;
use crate::identity::ObjectId;
use crate::lifecycle::kind::{effect_event_kind, LifecycleEvent, LifecycleEventKind};
use crate::tag::TagSet;
use crate::text::{as_key_ref, opt_str_view, opt_string_view, to_owned_key};

verus! {

/// The Signal kind a source fact of `kind` projects to by default.
pub open spec fn default_signal_kind_of(kind: LifecycleEventKind) -> SignalKind {
    match kind {
        LifecycleEventKind::EffectApplicationAccepted | LifecycleEventKind::EffectActiveCreated =>
            SignalKind::ActiveStart,
        LifecycleEventKind::EffectAdvanced => SignalKind::WhileActive,
        LifecycleEventKind::EffectExecuted => SignalKind::Executed,
        LifecycleEventKind::EffectPeriodicExecuted => SignalKind::Recurring,
        LifecycleEventKind::EffectRemoved | LifecycleEventKind::EffectExpired => SignalKind::Removed,
        _ => SignalKind::Executed,
    }
}

fn default_signal_kind(kind: LifecycleEventKind) -> (signal_kind: SignalKind)
    ensures
        signal_kind == default_signal_kind_of(kind),
{
    match kind {
        LifecycleEventKind::EffectApplicationAccepted | LifecycleEventKind::EffectActiveCreated => {
            SignalKind::ActiveStart
        },
        LifecycleEventKind::EffectAdvanced => SignalKind::WhileActive,
        LifecycleEventKind::EffectExecuted => SignalKind::Executed,
        LifecycleEventKind::EffectPeriodicExecuted => SignalKind::Recurring,
        LifecycleEventKind::EffectRemoved | LifecycleEventKind::EffectExpired => SignalKind::Removed,
        _ => SignalKind::Executed,
    }
}

/// Whether `definition` projects a source fact of kind `source_kind` carrying tag paths
/// `paths` into a Signal of kind `signal_kind`.
pub open spec fn signal_selects<Atom: PartialEq, P>(
    definition: SignalDefinition<Atom, P>,
    signal_kind: SignalKind,
    source_kind: LifecycleEventKind,
    paths: Seq<Seq<Atom>>,
) -> bool {
    &&& definition.signal_kind == signal_kind
    &&& definition.lifecycle_event_kinds@.contains(source_kind)
    &&& tag_match_holds(definition.tag_match, paths)
}

/// The definitions of `definitions` that select the source, in declaration order.
pub open spec fn selected_signal_definitions<Atom: PartialEq, P>(
    definitions: Seq<SignalDefinition<Atom, P>>,
    signal_kind: SignalKind,
    source_kind: LifecycleEventKind,
    paths: Seq<Seq<Atom>>,
) -> Seq<SignalDefinition<Atom, P>>
    decreases definitions.len(),
{
    if definitions.len() == 0 {
        Seq::empty()
    } else {
        let rest = selected_signal_definitions(definitions.drop_last(), signal_kind, source_kind, paths);
        if signal_selects(definitions.last(), signal_kind, source_kind, paths) {
            rest.push(definitions.last())
        } else {
            rest
        }
    }
}

/// A projection selects exactly the definitions of the projected Signal kind that list the
/// source kind and accept its tags, keeping their declaration order.
pub proof fn lemma_projection_selects<Atom: PartialEq, P>(
    definitions: Seq<SignalDefinition<Atom, P>>,
    signal_kind: SignalKind,
    source_kind: LifecycleEventKind,
    paths: Seq<Seq<Atom>>,
)
    ensures
        forall|i: int|
            0 <= i < selected_signal_definitions(definitions, signal_kind, source_kind, paths).len()
                ==> signal_selects(
                #[trigger] selected_signal_definitions(definitions, signal_kind, source_kind, paths)[i],
                signal_kind,
                source_kind,
                paths,
            ),
        forall|i: int|
            0 <= i < definitions.len() && signal_selects(
                #[trigger] definitions[i],
                signal_kind,
                source_kind,
                paths,
            ) ==> selected_signal_definitions(definitions, signal_kind, source_kind, paths).contains(
                definitions[i],
            ),
        selected_signal_definitions(definitions, signal_kind, source_kind, paths).len()
            <= definitions.len(),
    decreases definitions.len(),
{
    if definitions.len() > 0 {
        let rest = definitions.drop_last();
        lemma_projection_selects(rest, signal_kind, source_kind, paths);
        let before = selected_signal_definitions(rest, signal_kind, source_kind, paths);
        let after = selected_signal_definitions(definitions, signal_kind, source_kind, paths);
        assert forall|i: int| 0 <= i < after.len() implies signal_selects(
            #[trigger] after[i],
            signal_kind,
            source_kind,
            paths,
        ) by {
            if i < before.len() {
                assert(after[i] == before[i]);
            }
        }
        assert forall|i: int|
            0 <= i < definitions.len() && signal_selects(
                #[trigger] definitions[i],
                signal_kind,
                source_kind,
                paths,
            ) implies after.contains(definitions[i]) by {
            if i < rest.len() {
                assert(rest[i] == definitions[i]);
                let k = choose|k: int| 0 <= k < before.len() && before[k] == rest[i];
                assert(after[k] == before[k]);
            } else {
                assert(after[after.len() - 1] == definitions.last());
            }
        }
    }
}

/// The default projection tells effect facts apart by what they report: a periodic
/// execution, and only a periodic execution, becomes a recurring Signal, distinct from the
/// Signal of a one-off execution; removals and expiries, and only they, become removal
/// Signals; acceptances and creations, and only they, start an active Signal; advances, and
/// only they, report a while-active Signal.
pub proof fn lemma_default_signal_kinds<Tags, Payload>(event: EffectLifecycleEvent<Tags, Payload>)
    ensures
        default_signal_kind_of(effect_event_kind(event)) == SignalKind::Recurring <==> event is PeriodicExecuted,
        default_signal_kind_of(LifecycleEventKind::EffectPeriodicExecuted) != default_signal_kind_of(
            LifecycleEventKind::EffectExecuted,
        ),
        default_signal_kind_of(effect_event_kind(event)) == SignalKind::Removed <==> (event is Removed
            || event is Expired),
        default_signal_kind_of(effect_event_kind(event)) == SignalKind::ActiveStart <==> (event
            is ApplicationAccepted || event is ActiveCreated),
        default_signal_kind_of(effect_event_kind(event)) == SignalKind::WhileActive <==> event is Advanced,
        forall|kind: LifecycleEventKind|
            #[trigger] default_signal_kind_of(kind) == SignalKind::Recurring ==> kind
                == LifecycleEventKind::EffectPeriodicExecuted,
{
}

/// `fact` carries `definition`'s metadata and payload clone for a Signal of kind `signal_kind`.
pub open spec fn fact_from_definition<Atom, P: Clone, S>(
    fact: SignalFact<Atom, P, S>,
    definition: SignalDefinition<Atom, P>,
    signal_kind: SignalKind,
) -> bool {
    &&& fact.key == definition.key
    &&& fact.signal_kind == signal_kind
    &&& fact.channel_key == definition.channel_key
    &&& fact.category == definition.category
    &&& fact.retention == definition.retention
    &&& fact.export == definition.export
    &&& cloned(definition.signal_payload, fact.signal_payload)
    &&& fact.owner_id is None
}

/// `fact` describes a source of kind `kind` with the given references, clock, and data.
pub open spec fn fact_from_source<Atom: Clone, P, S: Clone>(
    fact: SignalFact<Atom, P, S>,
    kind: LifecycleEventKind,
    definition_key: Option<Seq<char>>,
    source_id: Option<ObjectId>,
    target_id: ObjectId,
    active_effect_id: Option<ActiveEffectId>,
    clock_units: Option<u64>,
    removal_reason: Option<SignalRemovalReason>,
    tags: TagSet<Atom>,
    payload: S,
) -> bool {
    &&& fact.source_lifecycle_event_kind == kind
    &&& opt_string_view(fact.source_definition_key) == definition_key
    &&& fact.source_id == source_id
    &&& fact.target_id == target_id
    &&& fact.active_effect_id == active_effect_id
    &&& fact.clock_units == clock_units
    &&& fact.removal_reason == removal_reason
    &&& cloned(tags, fact.tags)
    &&& fact.source_payload is Some
    &&& cloned(payload, fact.source_payload->0)
}

/// The tags an effect lifecycle fact carries.
pub open spec fn effect_event_tags<Atom, S>(event: EffectLifecycleEvent<TagSet<Atom>, S>) -> TagSet<Atom> {
    match event {
        EffectLifecycleEvent::ApplicationAccepted(a) => a.tags,
        EffectLifecycleEvent::ApplicationRejected(r) => r.application.tags,
        EffectLifecycleEvent::ActiveCreated(e) => e.tags,
        EffectLifecycleEvent::Removed(e) => e.tags,
        EffectLifecycleEvent::Expired(e) => e.tags,
        EffectLifecycleEvent::Executed(x) => x.tags,
        EffectLifecycleEvent::PeriodicExecuted(x) => x.tags,
        EffectLifecycleEvent::Advanced(a) => a.effect.tags,
    }
}

/// `fact` describes the source effect lifecycle fact `event`: its kind, definition key,
/// references, active effect, clock units (remaining units for instance facts, elapsed units
/// for executions and advances), removal reason, tags, and payload.
pub open spec fn fact_from_effect_event<Atom: Clone, P, S: Clone>(
    fact: SignalFact<Atom, P, S>,
    event: EffectLifecycleEvent<TagSet<Atom>, S>,
) -> bool {
    let kind = effect_event_kind(event);
    match event {
        EffectLifecycleEvent::ApplicationAccepted(a) => fact_from_source(
            fact,
            kind,
            opt_string_view(a.definition_key),
            a.source_id,
            a.target_id,
            None,
            None,
            None,
            a.tags,
            a.payload,
        ),
        EffectLifecycleEvent::ApplicationRejected(r) => fact_from_source(
            fact,
            kind,
            opt_string_view(r.application.definition_key),
            r.application.source_id,
            r.application.target_id,
            None,
            None,
            None,
            r.application.tags,
            r.application.payload,
        ),
        EffectLifecycleEvent::ActiveCreated(e) => fact_from_source(
            fact,
            kind,
            opt_string_view(e.definition_key),
            e.source_id,
            e.target_id,
            Some(e.id),
            e.remaining_units,
            None,
            e.tags,
            e.payload,
        ),
        EffectLifecycleEvent::Removed(e) => fact_from_source(
            fact,
            kind,
            opt_string_view(e.definition_key),
            e.source_id,
            e.target_id,
            Some(e.id),
            e.remaining_units,
            Some(SignalRemovalReason::Removed),
            e.tags,
            e.payload,
        ),
        EffectLifecycleEvent::Expired(e) => fact_from_source(
            fact,
            kind,
            opt_string_view(e.definition_key),
            e.source_id,
            e.target_id,
            Some(e.id),
            e.remaining_units,
            Some(SignalRemovalReason::Expired),
            e.tags,
            e.payload,
        ),
        EffectLifecycleEvent::Executed(x) => fact_from_source(
            fact,
            kind,
            opt_string_view(x.definition_key),
            x.source_id,
            x.target_id,
            x.active_effect_id,
            x.elapsed_units,
            None,
            x.tags,
            x.payload,
        ),
        EffectLifecycleEvent::PeriodicExecuted(x) => fact_from_source(
            fact,
            kind,
            opt_string_view(x.definition_key),
            x.source_id,
            x.target_id,
            x.active_effect_id,
            x.elapsed_units,
            None,
            x.tags,
            x.payload,
        ),
        EffectLifecycleEvent::Advanced(a) => fact_from_source(
            fact,
            kind,
            opt_string_view(a.effect.definition_key),
            a.effect.source_id,
            a.effect.target_id,
            Some(a.effect.id),
            Some(a.elapsed_units),
            None,
            a.effect.tags,
            a.effect.payload,
        ),
    }
}

/// `fact` reinvokes the active instance `effect`.
pub open spec fn fact_from_instance<Atom: Clone, P, S: Clone>(
    fact: SignalFact<Atom, P, S>,
    effect: EffectInstance<TagSet<Atom>, S>,
) -> bool {
    fact_from_source(
        fact,
        LifecycleEventKind::SignalReinvoked,
        opt_string_view(effect.definition_key),
        effect.source_id,
        effect.target_id,
        Some(effect.id),
        effect.remaining_units,
        None,
        effect.tags,
        effect.payload,
    )
}

/// The (definition, instance) pairs reinvocation projects, instance by instance.
pub open spec fn reinvocation_plan<Atom: PartialEq, P, S>(
    definitions: Seq<SignalDefinition<Atom, P>>,
    effects: Seq<EffectInstance<TagSet<Atom>, S>>,
) -> Seq<(SignalDefinition<Atom, P>, EffectInstance<TagSet<Atom>, S>)>
    decreases effects.len(),
{
    if effects.len() == 0 {
        Seq::empty()
    } else {
        let effect = effects.last();
        reinvocation_plan(definitions, effects.drop_last()) + selected_signal_definitions(
            definitions,
            SignalKind::WhileActive,
            LifecycleEventKind::SignalReinvoked,
            effect.tags@,
        ).map_values(|d: SignalDefinition<Atom, P>| (d, effect))
    }
}

/// The source a projection describes, borrowed from a fact or an instance.
struct SignalSourceContext<'source, Atom, SourcePayload> {
    kind: LifecycleEventKind,
    definition_key: Option<&'source str>,
    source_id: Option<ObjectId>,
    target_id: ObjectId,
    active_effect_id: Option<ActiveEffectId>,
    clock_units: Option<u64>,
    removal_reason: Option<SignalRemovalReason>,
    tags: &'source TagSet<Atom>,
    payload: &'source SourcePayload,
}

/// `fact` describes the borrowed source `context`.
spec fn fact_from_context<Atom: Clone, P, S: Clone>(fact: SignalFact<Atom, P, S>, context: SignalSourceContext<'_, Atom, S>) -> bool {
    fact_from_source(
        fact,
        context.kind,
        opt_str_view(context.definition_key),
        context.source_id,
        context.target_id,
        context.active_effect_id,
        context.clock_units,
        context.removal_reason,
        *context.tags,
        *context.payload,
    )
}

/// Signal projection engine over validated definitions.
///
/// Projection converts source lifecycle facts into derived `SignalFact`s.
/// It does not publish those facts to event channels or any external bus.
/// Caller code owns publication after projection.
pub struct SignalProjection<Atom, SignalPayload> {
    definitions: SignalDefinitions<Atom, SignalPayload>,
}

impl<Atom, SignalPayload> SignalProjection<Atom, SignalPayload> {
    /// The definitions projected against, in declaration order.
    pub closed spec fn definitions(&self) -> Seq<SignalDefinition<Atom, SignalPayload>> {
        self.definitions@
    }

    pub fn new(definitions: SignalDefinitions<Atom, SignalPayload>) -> (projection: Self)
        ensures
            projection.definitions() == definitions@,
    {
        SignalProjection { definitions }
    }
}

impl<Atom: Clone + PartialEq, SignalPayload: Clone> SignalProjection<Atom, SignalPayload> {
    /// One fact per definition that selects `context` for `signal_kind`, in declaration order.
    fn project_context_for_kind<SourcePayload: Clone>(
        &self,
        context: &SignalSourceContext<'_, Atom, SourcePayload>,
        signal_kind: SignalKind,
    ) -> (facts: Vec<SignalFact<Atom, SignalPayload, SourcePayload>>)
        ensures
            Atom::obeys_eq_spec() ==> ({
                let selected = selected_signal_definitions(
                    self.definitions(),
                    signal_kind,
                    context.kind,
                    context.tags@,
                );
                &&& facts@.len() == selected.len()
                &&& forall|i: int|
                    0 <= i < facts@.len() ==> fact_from_definition(
                        #[trigger] facts@[i],
                        selected[i],
                        signal_kind,
                    ) && fact_from_context(facts@[i], *context)
            }),
    {
        let definitions = self.definitions.definitions();
        let mut facts: Vec<SignalFact<Atom, SignalPayload, SourcePayload>> = Vec::new();
        let mut index: usize = 0;
        while index < definitions.len()
            invariant
                definitions@ == self.definitions(),
                0 <= index <= definitions@.len(),
                Atom::obeys_eq_spec() ==> ({
                    let selected = selected_signal_definitions(
                        definitions@.take(index as int),
                        signal_kind,
                        context.kind,
                        context.tags@,
                    );
                    &&& facts@.len() == selected.len()
                    &&& forall|i: int|
                        0 <= i < facts@.len() ==> fact_from_definition(
                            #[trigger] facts@[i],
                            selected[i],
                            signal_kind,
                        ) && fact_from_context(facts@[i], *context)
                }),
            decreases definitions@.len() - index,
        {
            let definition = &definitions[index];
            proof {
                assert(definitions@.take(index + 1).drop_last() == definitions@.take(index as int));
                assert(definitions@.take(index + 1).last() == definitions@[index as int]);
            }
            let kind_matches = definition.signal_kind == signal_kind;
            let mut source_listed = false;
            let mut k: usize = 0;
            while k < definition.lifecycle_event_kinds.len()
                invariant
                    0 <= k <= definition.lifecycle_event_kinds@.len(),
                    source_listed <==> exists|j: int|
                        0 <= j < k && (#[trigger] definition.lifecycle_event_kinds@[j]) == context.kind,
                decreases definition.lifecycle_event_kinds@.len() - k,
            {
                if definition.lifecycle_event_kinds[k] == context.kind {
                    source_listed = true;
                }
                k = k + 1;
            }
            if kind_matches && source_listed && definition.tag_match.matches(context.tags) {
                let fact = SignalFact {
                    key: definition.key.clone(),
                    signal_kind: definition.signal_kind,
                    channel_key: definition.channel_key.clone(),
                    category: definition.category.clone(),
                    retention: definition.retention,
                    export: definition.export,
                    source_lifecycle_event_kind: context.kind,
                    source_definition_key: to_owned_key(context.definition_key),
                    source_id: context.source_id,
                    target_id: context.target_id,
                    owner_id: None,
                    active_effect_id: context.active_effect_id,
                    clock_units: context.clock_units,
                    removal_reason: context.removal_reason,
                    tags: context.tags.clone(),
                    signal_payload: definition.signal_payload.clone(),
                    source_payload: Some(context.payload.clone()),
                };
                facts.push(fact);
            }
            index = index + 1;
        }
        proof {
            assert(definitions@.take(definitions@.len() as int) == definitions@);
        }
        facts
    }

    /// Projects an effect lifecycle event into matching Signal facts.
    ///
    /// The returned facts are inert until caller code publishes or exports them.
    pub fn project_effect_event<SourcePayload: Clone>(
        &self,
        event: &EffectLifecycleEvent<TagSet<Atom>, SourcePayload>,
    ) -> (facts: Vec<SignalFact<Atom, SignalPayload, SourcePayload>>)
        ensures
            Atom::obeys_eq_spec() ==> ({
                let kind = effect_event_kind(*event);
                let signal_kind = default_signal_kind_of(kind);
                let selected = selected_signal_definitions(
                    self.definitions(),
                    signal_kind,
                    kind,
                    effect_event_tags(*event)@,
                );
                &&& facts@.len() == selected.len()
                &&& forall|i: int|
                    0 <= i < facts@.len() ==> fact_from_definition(
                        #[trigger] facts@[i],
                        selected[i],
                        signal_kind,
                    ) && fact_from_effect_event(facts@[i], *event)
            }),
    {
        let kind = event.lifecycle_event_kind();
        let context = match event {
            EffectLifecycleEvent::ApplicationAccepted(application) => SignalSourceContext {
                kind,
                definition_key: as_key_ref(&application.definition_key),
                source_id: application.source_id,
                target_id: application.target_id,
                active_effect_id: None,
                clock_units: None,
                removal_reason: None,
                tags: &application.tags,
                payload: &application.payload,
            },
            EffectLifecycleEvent::ApplicationRejected(rejection) => SignalSourceContext {
                kind,
                definition_key: as_key_ref(&rejection.application.definition_key),
                source_id: rejection.application.source_id,
                target_id: rejection.application.target_id,
                active_effect_id: None,
                clock_units: None,
                removal_reason: None,
                tags: &rejection.application.tags,
                payload: &rejection.application.payload,
            },
            EffectLifecycleEvent::ActiveCreated(effect) => SignalSourceContext {
                kind,
                definition_key: as_key_ref(&effect.definition_key),
                source_id: effect.source_id,
                target_id: effect.target_id,
                active_effect_id: Some(effect.id),
                clock_units: effect.remaining_units,
                removal_reason: None,
                tags: &effect.tags,
                payload: &effect.payload,
            },
            EffectLifecycleEvent::Removed(effect) => SignalSourceContext {
                kind,
                definition_key: as_key_ref(&effect.definition_key),
                source_id: effect.source_id,
                target_id: effect.target_id,
                active_effect_id: Some(effect.id),
                clock_units: effect.remaining_units,
                removal_reason: Some(SignalRemovalReason::Removed),
                tags: &effect.tags,
                payload: &effect.payload,
            },
            EffectLifecycleEvent::Expired(effect) => SignalSourceContext {
                kind,
                definition_key: as_key_ref(&effect.definition_key),
                source_id: effect.source_id,
                target_id: effect.target_id,
                active_effect_id: Some(effect.id),
                clock_units: effect.remaining_units,
                removal_reason: Some(SignalRemovalReason::Expired),
                tags: &effect.tags,
                payload: &effect.payload,
            },
            EffectLifecycleEvent::Executed(execution) => SignalSourceContext {
                kind,
                definition_key: as_key_ref(&execution.definition_key),
                source_id: execution.source_id,
                target_id: execution.target_id,
                active_effect_id: execution.active_effect_id,
                clock_units: execution.elapsed_units,
                removal_reason: None,
                tags: &execution.tags,
                payload: &execution.payload,
            },
            EffectLifecycleEvent::PeriodicExecuted(execution) => SignalSourceContext {
                kind,
                definition_key: as_key_ref(&execution.definition_key),
                source_id: execution.source_id,
                target_id: execution.target_id,
                active_effect_id: execution.active_effect_id,
                clock_units: execution.elapsed_units,
                removal_reason: None,
                tags: &execution.tags,
                payload: &execution.payload,
            },
            EffectLifecycleEvent::Advanced(advance) => SignalSourceContext {
                kind,
                definition_key: as_key_ref(&advance.effect.definition_key),
                source_id: advance.effect.source_id,
                target_id: advance.effect.target_id,
                active_effect_id: Some(advance.effect.id),
                clock_units: Some(advance.elapsed_units),
                removal_reason: None,
                tags: &advance.effect.tags,
                payload: &advance.effect.payload,
            },
        };
        let signal_kind = default_signal_kind(kind);
        let facts = self.project_context_for_kind(&context, signal_kind);
        proof {
            assert(*context.tags == effect_event_tags(*event));
            assert forall|i: int| 0 <= i < facts@.len() && fact_from_context(#[trigger] facts@[i], context)
                implies fact_from_effect_event(facts@[i], *event) by {
            }
        }
        facts
    }

    /// Reinvokes while-active Signal facts for currently active pipeline effects.
    ///
    /// Only definitions that declare `LifecycleEventKind::SignalReinvoked`
    /// are eligible for reinvocation projection. The returned facts are not
    /// automatically routed.
    pub fn reinvoke_effect_instances<SourcePayload: Clone>(
        &self,
        effects: &[EffectInstance<TagSet<Atom>, SourcePayload>],
    ) -> (facts: Vec<SignalFact<Atom, SignalPayload, SourcePayload>>)
        ensures
            Atom::obeys_eq_spec() ==> ({
                let plan = reinvocation_plan(self.definitions(), effects@);
                &&& facts@.len() == plan.len()
                &&& forall|i: int|
                    0 <= i < facts@.len() ==> fact_from_definition(
                        #[trigger] facts@[i],
                        plan[i].0,
                        SignalKind::WhileActive,
                    ) && fact_from_instance(facts@[i], plan[i].1)
            }),
    {
        let mut facts: Vec<SignalFact<Atom, SignalPayload, SourcePayload>> = Vec::new();
        let mut index: usize = 0;
        while index < effects.len()
            invariant
                0 <= index <= effects@.len(),
                Atom::obeys_eq_spec() ==> ({
                    let plan = reinvocation_plan(self.definitions(), effects@.take(index as int));
                    &&& facts@.len() == plan.len()
                    &&& forall|i: int|
                        0 <= i < facts@.len() ==> fact_from_definition(
                            #[trigger] facts@[i],
                            plan[i].0,
                            SignalKind::WhileActive,
                        ) && fact_from_instance(facts@[i], plan[i].1)
                }),
            decreases effects@.len() - index,
        {
            let effect = &effects[index];
            let context = SignalSourceContext {
                kind: LifecycleEventKind::SignalReinvoked,
                definition_key: as_key_ref(&effect.definition_key),
                source_id: effect.source_id,
                target_id: effect.target_id,
                active_effect_id: Some(effect.id),
                clock_units: effect.remaining_units,
                removal_reason: None,
                tags: &effect.tags,
                payload: &effect.payload,
            };
            let mut projected = self.project_context_for_kind(&context, SignalKind::WhileActive);
            let ghost before = facts@;
            let ghost added = projected@;
            facts.append(&mut projected);
            proof {
                let prefix = effects@.take(index as int);
                let next = effects@.take(index + 1);
                assert(next.drop_last() == prefix);
                assert(next.last() == *effect);
                if Atom::obeys_eq_spec() {
                    let selected = selected_signal_definitions(
                        self.definitions(),
                        SignalKind::WhileActive,
                        LifecycleEventKind::SignalReinvoked,
                        effect.tags@,
                    );
                    let pairs = selected.map_values(|d: SignalDefinition<Atom, SignalPayload>| (d, *effect));
                    let plan = reinvocation_plan(self.definitions(), next);
                    assert(plan == reinvocation_plan(self.definitions(), prefix) + pairs);
                    assert forall|i: int| 0 <= i < facts@.len() implies fact_from_definition(
                        #[trigger] facts@[i],
                        plan[i].0,
                        SignalKind::WhileActive,
                    ) && fact_from_instance(facts@[i], plan[i].1) by {
                        if i >= before.len() {
                            let j = i - before.len();
                            assert(facts@[i] == added[j]);
                            assert(plan[i] == pairs[j]);
                        } else {
                            assert(facts@[i] == before[i]);
                        }
                    }
                }
            }
            index = index + 1;
        }
        proof {
            assert(effects@.take(effects@.len() as int) == effects@);
        }
        facts
    }
}

} // verus!
