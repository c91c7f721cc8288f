//! Effect application inputs, drafts, and the caller-owned participants of effect commands.
use vstd::prelude::*;

use super::definition::EffectClockPolicy;
use super::events::{
    effect_fact, execution_view_fact, EffectExecutionView, EffectFact, EffectLifecycleEventView,
    ExecutionFact, ExecutionRecord,
};
use crate::ability::events::ActiveAbility;
use crate::clock::ClockUnits;
use crate::identity::ObjectId;
use crate::text::{opt_str_view, opt_string_view, to_owned_key};
use std::convert::Infallible;

verus! {

/// One effect application attempt.
#[derive(Clone, Debug, PartialEq, Eq)]
pub struct EffectApplication<Tags, Payload> {
    pub definition_key: Option<String>,
    pub source_id: Option<ObjectId>,
    pub target_id: ObjectId,
    pub tags: Tags,
    pub payload: Payload,
}

/// Borrowed view of one effect application attempt.
#[derive(Debug)]
pub struct EffectApplicationView<'event, Tags, Payload> {
    pub definition_key: Option<&'event str>,
    pub source_id: Option<ObjectId>,
    pub target_id: ObjectId,
    pub tags: &'event Tags,
    pub payload: &'event Payload,
}

impl<'event, Tags, Payload> Clone for EffectApplicationView<'event, Tags, Payload> {
    fn clone(&self) -> (copy: Self)
        ensures
            copy == *self,
    {
        *self
    }
}

impl<'event, Tags, Payload> Copy for EffectApplicationView<'event, Tags, Payload> {

}

impl<'event, Tags: Clone, Payload: Clone> EffectApplicationView<'event, Tags, Payload> {
    pub fn to_owned_application(&self) -> (application: EffectApplication<Tags, Payload>)
        ensures
            opt_string_view(application.definition_key) == opt_str_view(self.definition_key),
            application.source_id == self.source_id,
            application.target_id == self.target_id,
            cloned(*self.tags, application.tags),
            cloned(*self.payload, application.payload),
    {
        EffectApplication {
            definition_key: to_owned_key(self.definition_key),
            source_id: self.source_id,
            target_id: self.target_id,
            tags: self.tags.clone(),
            payload: self.payload.clone(),
        }
    }
}

/// Runtime application policy selected by the caller.
#[derive(Clone, Debug, PartialEq, Eq)]
pub enum EffectApplicationDecision {
    Accept,
    Reject { reason: String },
}

/// Policy for applications whose `source_id` is absent.
#[derive(Clone, Copy, Debug, PartialEq, Eq, Structural)]
pub enum EffectSourcePolicy {
    /// Allow `source_id: None` for environmental or system effects.
    AllowSystemSource,
    /// Require `source_id: Some(_)` and validate that source against the object store.
    RequireLiveSource,
}

/// Application input for the effect pipeline.
#[derive(Clone, Debug, PartialEq, Eq)]
pub struct EffectApplicationInput<Tags, Payload> {
    pub source_id: Option<ObjectId>,
    pub target_id: ObjectId,
    pub tags: Tags,
    pub payload: Payload,
    pub decision: EffectApplicationDecision,
}

impl<Tags, Payload> EffectApplicationInput<Tags, Payload> {
    pub fn accept(source_id: Option<ObjectId>, target_id: ObjectId, tags: Tags, payload: Payload) -> (input:
        Self)
        ensures
            input == (EffectApplicationInput {
                source_id,
                target_id,
                tags,
                payload,
                decision: EffectApplicationDecision::Accept,
            }),
    {
        EffectApplicationInput {
            source_id,
            target_id,
            tags,
            payload,
            decision: EffectApplicationDecision::Accept,
        }
    }

    pub fn reject(
        source_id: Option<ObjectId>,
        target_id: ObjectId,
        tags: Tags,
        payload: Payload,
        reason: String,
    ) -> (input: Self)
        ensures
            input == (EffectApplicationInput {
                source_id,
                target_id,
                tags,
                payload,
                decision: EffectApplicationDecision::Reject { reason },
            }),
    {
        EffectApplicationInput {
            source_id,
            target_id,
            tags,
            payload,
            decision: EffectApplicationDecision::Reject { reason },
        }
    }

    /// Accepts an application sourced by the owner of an active ability.
    pub fn accept_from_active_ability<AbilityTags, AbilityPayload>(
        active: &ActiveAbility<AbilityTags, AbilityPayload>,
        target_id: ObjectId,
        tags: Tags,
        payload: Payload,
    ) -> (input: Self)
        ensures
            input == (EffectApplicationInput {
                source_id: Some(active.owner_id),
                target_id,
                tags,
                payload,
                decision: EffectApplicationDecision::Accept,
            }),
    {
        Self::accept(Some(active.source_id()), target_id, tags, payload)
    }

    /// Rejects an application sourced by the owner of an active ability.
    pub fn reject_from_active_ability<AbilityTags, AbilityPayload>(
        active: &ActiveAbility<AbilityTags, AbilityPayload>,
        target_id: ObjectId,
        tags: Tags,
        payload: Payload,
        reason: String,
    ) -> (input: Self)
        ensures
            input == (EffectApplicationInput {
                source_id: Some(active.owner_id),
                target_id,
                tags,
                payload,
                decision: EffectApplicationDecision::Reject { reason },
            }),
    {
        Self::reject(Some(active.source_id()), target_id, tags, payload, reason)
    }
}

/// Effect application draft handed to caller-owned initialization logic.
///
/// The initializer may rewrite the payload and the duration and period clocks; the
/// definition key, references, and tags are read-only.
pub struct EffectApplicationDraft<'draft, Tags, Payload> {
    pub definition_key: &'draft str,
    pub source_id: Option<ObjectId>,
    pub target_id: ObjectId,
    pub tags: &'draft Tags,
    pub payload: Payload,
    pub duration: Option<EffectClockPolicy>,
    pub period: Option<EffectClockPolicy>,
}

impl<'draft, Tags, Payload> EffectApplicationDraft<'draft, Tags, Payload> {
    pub fn set_duration_units(&mut self, units: Option<ClockUnits>)
        ensures
            *final(self) == (EffectApplicationDraft {
                duration: match units {
                    Some(u) => Some(EffectClockPolicy { units: u }),
                    None => None,
                },
                ..*old(self)
            }),
    {
        self.duration = match units {
            Some(u) => Some(EffectClockPolicy::new(u)),
            None => None,
        };
    }

    pub fn set_period_units(&mut self, units: Option<ClockUnits>)
        ensures
            *final(self) == (EffectApplicationDraft {
                period: match units {
                    Some(u) => Some(EffectClockPolicy { units: u }),
                    None => None,
                },
                ..*old(self)
            }),
    {
        self.period = match units {
            Some(u) => Some(EffectClockPolicy::new(u)),
            None => None,
        };
    }
}

/// Caller-owned effect application initializer.
pub trait EffectInitializer<Context, Tags, Payload> {
    type Error;

    /// Whether this initializer accepts every draft and leaves it unchanged; an initializer
    /// promises this only by saying so.
    open spec fn leaves_drafts_unchanged(&self) -> bool {
        false
    }

    fn initialize(
        &mut self,
        context: &mut Context,
        draft: &mut EffectApplicationDraft<'_, Tags, Payload>,
    ) -> (result: Result<(), Self::Error>)
        ensures
            final(draft).definition_key == old(draft).definition_key,
            final(draft).source_id == old(draft).source_id,
            final(draft).target_id == old(draft).target_id,
            final(draft).tags == old(draft).tags,
            old(self).leaves_drafts_unchanged() ==> result is Ok && *final(draft) == *old(draft),
    ;
}

/// No-op effect initializer for pipelines that do not need context.
#[derive(Clone, Copy, Debug, Default, PartialEq, Eq)]
pub struct NoopEffectInitializer;

impl<Context, Tags, Payload> EffectInitializer<Context, Tags, Payload> for NoopEffectInitializer {
    type Error = Infallible;

    open spec fn leaves_drafts_unchanged(&self) -> bool {
        true
    }

    fn initialize(
        &mut self,
        _context: &mut Context,
        _draft: &mut EffectApplicationDraft<'_, Tags, Payload>,
    ) -> (result: Result<(), Infallible>) {
        Ok(())
    }
}

/// Synchronous caller-owned action run when an effect execution completes.
pub trait EffectExecutionAction<Context, Tags, Payload> {
    type Error;

    fn execute_effect(
        &mut self,
        context: &mut Context,
        execution: EffectExecutionView<'_, Tags, Payload>,
    ) -> Result<(), Self::Error>;
}

/// Sink for effect lifecycle facts produced while executing effect pipeline commands.
pub trait EffectLifecycleSink<Tags, Payload> {
    /// Summaries of the facts this sink has received, in order.
    spec fn emitted(&self) -> Seq<EffectFact>;

    fn emit_effect_lifecycle(&mut self, event: EffectLifecycleEventView<'_, Tags, Payload>)
        ensures
            final(self).emitted() == old(self).emitted().push(effect_fact(event)),
    ;
}

/// Effect lifecycle sink that drops emitted facts.
#[derive(Clone, Copy)]
pub struct DiscardEffectLifecycleEvents {
    log: Ghost<Seq<EffectFact>>,
}

impl DiscardEffectLifecycleEvents {
    /// Summaries of the facts dropped so far.
    pub closed spec fn dropped(&self) -> Seq<EffectFact> {
        self.log@
    }

    pub fn new() -> (sink: DiscardEffectLifecycleEvents)
        ensures
            sink.dropped() == Seq::<EffectFact>::empty(),
    {
        DiscardEffectLifecycleEvents { log: Ghost(Seq::empty()) }
    }
}

impl<Tags, Payload> EffectLifecycleSink<Tags, Payload> for DiscardEffectLifecycleEvents {
    closed spec fn emitted(&self) -> Seq<EffectFact> {
        self.log@
    }

    fn emit_effect_lifecycle(&mut self, event: EffectLifecycleEventView<'_, Tags, Payload>) {
        self.log = Ghost(self.log@.push(effect_fact(event)));
    }
}

/// Caller-owned listener for effect lifecycle facts.
pub trait EffectLifecycleListener<Tags, Payload> {
    fn on_effect_lifecycle(&mut self, event: EffectLifecycleEventView<'_, Tags, Payload>);
}

/// Lifecycle sink that hands each fact to a caller-owned listener, in order.
pub struct ListenedEffectLifecycleEvents<Listener> {
    listener: Listener,
    log: Ghost<Seq<EffectFact>>,
}

impl<Listener> ListenedEffectLifecycleEvents<Listener> {
    /// The wrapped listener.
    pub closed spec fn wrapped(&self) -> Listener {
        self.listener
    }

    /// Summaries of the facts handed to the listener so far.
    pub closed spec fn heard(&self) -> Seq<EffectFact> {
        self.log@
    }

    pub fn new(listener: Listener) -> (sink: Self)
        ensures
            sink.wrapped() == listener,
            sink.heard() == Seq::<EffectFact>::empty(),
    {
        ListenedEffectLifecycleEvents { listener, log: Ghost(Seq::empty()) }
    }

    pub fn listener(&self) -> (listener: &Listener)
        ensures
            *listener == self.wrapped(),
    {
        &self.listener
    }

    pub fn into_listener(self) -> (listener: Listener)
        ensures
            listener == self.wrapped(),
    {
        self.listener
    }
}

impl<Tags, Payload, Listener: EffectLifecycleListener<Tags, Payload>> EffectLifecycleSink<
    Tags,
    Payload,
> for ListenedEffectLifecycleEvents<Listener> {
    closed spec fn emitted(&self) -> Seq<EffectFact> {
        self.log@
    }

    fn emit_effect_lifecycle(&mut self, event: EffectLifecycleEventView<'_, Tags, Payload>) {
        self.listener.on_effect_lifecycle(event);
        self.log = Ghost(self.log@.push(effect_fact(event)));
    }
}

/// Execution participant for effect commands.
pub trait EffectExecutor<Context, Tags, Payload> {
    type Error;

    /// Summaries of the facts emitted through this executor, in order.
    spec fn emitted(&self) -> Seq<EffectFact>;

    /// The executions this executor has been handed, in order.
    spec fn executed(&self) -> Seq<ExecutionRecord>;

    /// Whether this executor's action never fails; an executor promises this only by saying so.
    open spec fn executes_every_effect(&self) -> bool {
        false
    }

    fn execute_effect(
        &mut self,
        context: &mut Context,
        execution: EffectExecutionView<'_, Tags, Payload>,
    ) -> (result: Result<(), Self::Error>)
        ensures
            final(self).emitted() == old(self).emitted(),
            final(self).executed() == old(self).executed().push(
                ExecutionRecord {
                    execution: execution_view_fact(execution),
                    after_facts: old(self).emitted().len(),
                    succeeded: result is Ok,
                },
            ),
            final(self).executes_every_effect() == old(self).executes_every_effect(),
            old(self).executes_every_effect() ==> result is Ok,
    ;

    fn emit_effect_lifecycle(&mut self, event: EffectLifecycleEventView<'_, Tags, Payload>)
        ensures
            final(self).emitted() == old(self).emitted().push(effect_fact(event)),
            final(self).executed() == old(self).executed(),
            final(self).executes_every_effect() == old(self).executes_every_effect(),
    ;
}

/// Executor for effect commands that need lifecycle facts but no caller-owned action.
#[derive(Clone, Copy)]
pub struct NoEffectExecutor<Sink = DiscardEffectLifecycleEvents> {
    sink: Sink,
    requests: Ghost<Seq<ExecutionRecord>>,
}

impl NoEffectExecutor<DiscardEffectLifecycleEvents> {
    pub fn new() -> (executor: NoEffectExecutor<DiscardEffectLifecycleEvents>)
        ensures
            executor.sink().dropped() == Seq::<EffectFact>::empty(),
            executor.requested() == Seq::<ExecutionRecord>::empty(),
    {
        NoEffectExecutor { sink: DiscardEffectLifecycleEvents::new(), requests: Ghost(Seq::empty()) }
    }
}

impl<Sink> NoEffectExecutor<Sink> {
    /// The wrapped sink.
    pub closed spec fn sink(&self) -> Sink {
        self.sink
    }

    /// The executions handed to this executor so far, in order.
    pub closed spec fn requested(&self) -> Seq<ExecutionRecord> {
        self.requests@
    }

    /// Replaces the lifecycle sink with `emit`, which receives borrowed facts.
    pub fn with_borrowed_events<F>(self, emit: F) -> (executor: NoEffectExecutor<F>)
        ensures
            executor.sink() == emit,
            executor.requested() == self.requested(),
    {
        NoEffectExecutor { sink: emit, requests: self.requests }
    }
}

impl<Context, Tags, Payload, Sink: EffectLifecycleSink<Tags, Payload>> EffectExecutor<
    Context,
    Tags,
    Payload,
> for NoEffectExecutor<Sink> {
    type Error = Infallible;

    closed spec fn emitted(&self) -> Seq<EffectFact> {
        self.sink.emitted()
    }

    closed spec fn executed(&self) -> Seq<ExecutionRecord> {
        self.requests@
    }

    open spec fn executes_every_effect(&self) -> bool {
        true
    }

    fn execute_effect(
        &mut self,
        _context: &mut Context,
        execution: EffectExecutionView<'_, Tags, Payload>,
    ) -> (result: Result<(), Infallible>) {
        self.requests = Ghost(
            self.requests@.push(
                ExecutionRecord {
                    execution: execution_view_fact(execution),
                    after_facts: self.sink.emitted().len(),
                    succeeded: true,
                },
            ),
        );
        Ok(())
    }

    fn emit_effect_lifecycle(&mut self, event: EffectLifecycleEventView<'_, Tags, Payload>) {
        self.sink.emit_effect_lifecycle(event);
    }
}

/// Executor that adapts a caller-owned action and a lifecycle sink.
pub struct EffectActionExecutor<'action, Action, Sink = DiscardEffectLifecycleEvents> {
    action: &'action mut Action,
    sink: Sink,
    requests: Ghost<Seq<ExecutionRecord>>,
}

impl<'action, Action> EffectActionExecutor<'action, Action, DiscardEffectLifecycleEvents> {
    pub fn new(action: &'action mut Action) -> (executor: EffectActionExecutor<
        'action,
        Action,
        DiscardEffectLifecycleEvents,
    >)
        ensures
            executor.sink().dropped() == Seq::<EffectFact>::empty(),
            executor.requested() == Seq::<ExecutionRecord>::empty(),
            executor.action() == *old(action),
    {
        EffectActionExecutor { action, sink: DiscardEffectLifecycleEvents::new(), requests: Ghost(Seq::empty()) }
    }
}

impl<'action, Action, Sink> EffectActionExecutor<'action, Action, Sink> {
    /// The wrapped sink.
    pub closed spec fn sink(&self) -> Sink {
        self.sink
    }

    /// The caller's action as this executor currently holds it.
    pub closed spec fn action(&self) -> Action {
        *self.action
    }

    /// The executions handed to this executor so far, in order.
    pub closed spec fn requested(&self) -> Seq<ExecutionRecord> {
        self.requests@
    }

    /// Replaces the lifecycle sink with `emit`, which receives borrowed facts.
    pub fn with_borrowed_events<F>(self, emit: F) -> (executor: EffectActionExecutor<'action, Action, F>)
        ensures
            executor.sink() == emit,
            executor.requested() == self.requested(),
            executor.action() == self.action(),
    {
        EffectActionExecutor { action: self.action, sink: emit, requests: self.requests }
    }
}

impl<
    'action,
    Context,
    Action: EffectExecutionAction<Context, Tags, Payload>,
    Tags,
    Payload,
    Sink: EffectLifecycleSink<Tags, Payload>,
> EffectExecutor<Context, Tags, Payload> for EffectActionExecutor<'action, Action, Sink> {
    type Error = Action::Error;

    closed spec fn emitted(&self) -> Seq<EffectFact> {
        self.sink.emitted()
    }

    closed spec fn executed(&self) -> Seq<ExecutionRecord> {
        self.requests@
    }

    open spec fn executes_every_effect(&self) -> bool {
        false
    }

    fn execute_effect(
        &mut self,
        context: &mut Context,
        execution: EffectExecutionView<'_, Tags, Payload>,
    ) -> (result: Result<(), Action::Error>)
        ensures
            final(self).sink() == old(self).sink(),
            final(self).requested() == old(self).requested().push(
                ExecutionRecord {
                    execution: execution_view_fact(execution),
                    after_facts: old(self).sink().emitted().len(),
                    succeeded: result is Ok,
                },
            ),
            exists|action: &mut Action, ctx: &mut Context|
                {
                    &&& #[trigger] call_ensures(Action::execute_effect, (action, ctx, execution), result)
                    &&& mut_ref_current(action) == old(self).action()
                    &&& mut_ref_future(action) == final(self).action()
                    &&& mut_ref_current(ctx) == *old(context)
                    &&& mut_ref_future(ctx) == *final(context)
                },
    {
        let result = self.action.execute_effect(context, execution);
        self.requests = Ghost(
            self.requests@.push(
                ExecutionRecord {
                    execution: execution_view_fact(execution),
                    after_facts: self.sink.emitted().len(),
                    succeeded: result is Ok,
                },
            ),
        );
        result
    }

    fn emit_effect_lifecycle(&mut self, event: EffectLifecycleEventView<'_, Tags, Payload>) {
        self.sink.emit_effect_lifecycle(event);
    }
}

/// Rejected effect application fact.
#[derive(Clone, Debug, PartialEq, Eq)]
pub struct EffectApplicationRejection<Tags, Payload> {
    pub application: EffectApplication<Tags, Payload>,
    pub reason: String,
}

/// Borrowed rejected effect application fact for streaming emission.
#[derive(Debug)]
pub struct EffectApplicationRejectionView<'event, Tags, Payload> {
    pub application: EffectApplicationView<'event, Tags, Payload>,
    pub reason: &'event str,
}

impl<'event, Tags, Payload> Clone for EffectApplicationRejectionView<'event, Tags, Payload> {
    fn clone(&self) -> (copy: Self)
        ensures
            copy == *self,
    {
        *self
    }
}

impl<'event, Tags, Payload> Copy for EffectApplicationRejectionView<'event, Tags, Payload> {

}

impl<'event, Tags: Clone, Payload: Clone> EffectApplicationRejectionView<'event, Tags, Payload> {
    pub fn to_owned_rejection(&self) -> (rejection: EffectApplicationRejection<Tags, Payload>)
        ensures
            opt_string_view(rejection.application.definition_key) == opt_str_view(
                self.application.definition_key,
            ),
            rejection.application.source_id == self.application.source_id,
            rejection.application.target_id == self.application.target_id,
            cloned(*self.application.tags, rejection.application.tags),
            cloned(*self.application.payload, rejection.application.payload),
            rejection.reason@ == self.reason@,
    {
        EffectApplicationRejection {
            application: self.application.to_owned_application(),
            reason: self.reason.to_owned(),
        }
    }
}

} // verus!
