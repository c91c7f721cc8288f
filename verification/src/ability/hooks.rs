//! Caller-owned gates, commit actions, lifecycle sinks, and the executors that combine them.
use vstd::prelude::*;
use std::convert::Infallible;

use super::events::{
    ability_fact, active_fact, attempt_fact, AbilityActivationAttemptView, AbilityFact,
    AbilityFactKind, AbilityLifecycleEventView, ActiveAbilityView,
};

verus! {

/// Caller-owned decision returned by an ability blocking query.
#[derive(Clone, Debug, PartialEq, Eq)]
pub enum AbilityActivationDecision<BlockReason> {
    Allow,
    Block(BlockReason),
}

/// Synchronous caller-owned activation gate.
pub trait AbilityActivationGate<Context, Tags, Payload> {
    type Error;
    type BlockReason;

    fn can_activate(
        &mut self,
        context: &Context,
        attempt: AbilityActivationAttemptView<'_, Tags, Payload>,
    ) -> Result<AbilityActivationDecision<Self::BlockReason>, Self::Error>;
}

/// Synchronous caller-owned commit action.
pub trait AbilityCommitAction<Context, Tags, Payload> {
    type Error;

    fn apply_commit(
        &mut self,
        context: &mut Context,
        active: ActiveAbilityView<'_, Tags, Payload>,
    ) -> Result<(), Self::Error>;
}

/// Activation gate that always allows activation.
#[derive(Clone, Copy, Debug, Default, PartialEq, Eq)]
pub struct AllowActivation;

impl<Context, Tags, Payload> AbilityActivationGate<Context, Tags, Payload> for AllowActivation {
    type Error = Infallible;
    type BlockReason = Infallible;

    fn can_activate(
        &mut self,
        _context: &Context,
        _attempt: AbilityActivationAttemptView<'_, Tags, Payload>,
    ) -> (decision: Result<AbilityActivationDecision<Infallible>, Infallible>)
        ensures
            decision == Ok::<AbilityActivationDecision<Infallible>, Infallible>(
                AbilityActivationDecision::Allow,
            ),
    {
        Ok(AbilityActivationDecision::Allow)
    }
}

/// Commit action that performs no caller-owned work.
#[derive(Clone, Copy, Debug, Default, PartialEq, Eq)]
pub struct NoCommitAction;

impl<Context, Tags, Payload> AbilityCommitAction<Context, Tags, Payload> for NoCommitAction {
    type Error = Infallible;

    fn apply_commit(
        &mut self,
        _context: &mut Context,
        _active: ActiveAbilityView<'_, Tags, Payload>,
    ) -> (result: Result<(), Infallible>)
        ensures
            result is Ok,
    {
        Ok(())
    }
}

/// Sink for ability lifecycle facts produced while executing ability commands.
pub trait AbilityLifecycleSink<Tags, Payload> {
    /// Summaries of the facts this sink has received, in order.
    spec fn emitted(&self) -> Seq<AbilityFact>;

    fn emit_ability_lifecycle(&mut self, event: AbilityLifecycleEventView<'_, Tags, Payload>)
        ensures
            final(self).emitted() == old(self).emitted().push(ability_fact(event)),
    ;
}

/// Ability lifecycle sink that drops emitted facts.
#[derive(Clone, Copy)]
pub struct DiscardAbilityLifecycleEvents {
    log: Ghost<Seq<AbilityFact>>,
}

impl DiscardAbilityLifecycleEvents {
    /// Summaries of the facts dropped so far.
    pub closed spec fn dropped(&self) -> Seq<AbilityFact> {
        self.log@
    }

    pub fn new() -> (sink: DiscardAbilityLifecycleEvents)
        ensures
            sink.dropped() == Seq::<AbilityFact>::empty(),
    {
        DiscardAbilityLifecycleEvents { log: Ghost(Seq::empty()) }
    }
}

impl<Tags, Payload> AbilityLifecycleSink<Tags, Payload> for DiscardAbilityLifecycleEvents {
    closed spec fn emitted(&self) -> Seq<AbilityFact> {
        self.log@
    }

    fn emit_ability_lifecycle(&mut self, event: AbilityLifecycleEventView<'_, Tags, Payload>) {
        self.log = Ghost(self.log@.push(ability_fact(event)));
    }
}

/// Caller-owned listener for ability lifecycle facts.
pub trait AbilityLifecycleListener<Tags, Payload> {
    fn on_ability_lifecycle(&mut self, event: AbilityLifecycleEventView<'_, Tags, Payload>);
}

/// Lifecycle sink that hands each fact to a caller-owned listener, in order.
pub struct ListenedAbilityLifecycleEvents<Listener> {
    listener: Listener,
    log: Ghost<Seq<AbilityFact>>,
}

impl<Listener> ListenedAbilityLifecycleEvents<Listener> {
    /// The wrapped listener.
    pub closed spec fn wrapped(&self) -> Listener {
        self.listener
    }

    /// Summaries of the facts handed to the listener so far.
    pub closed spec fn heard(&self) -> Seq<AbilityFact> {
        self.log@
    }

    pub fn new(listener: Listener) -> (sink: Self)
        ensures
            sink.wrapped() == listener,
            sink.heard() == Seq::<AbilityFact>::empty(),
    {
        ListenedAbilityLifecycleEvents { listener, log: Ghost(Seq::empty()) }
    }

    pub fn listener(&self) -> (listener: &Listener)
        ensures
            *listener == self.wrapped(),
    {
        &self.listener
    }

    pub fn into_listener(self) -> (listener: Listener)
        ensures
            listener == self.wrapped(),
    {
        self.listener
    }
}

impl<Tags, Payload, Listener: AbilityLifecycleListener<Tags, Payload>> AbilityLifecycleSink<
    Tags,
    Payload,
> for ListenedAbilityLifecycleEvents<Listener> {
    closed spec fn emitted(&self) -> Seq<AbilityFact> {
        self.log@
    }

    fn emit_ability_lifecycle(&mut self, event: AbilityLifecycleEventView<'_, Tags, Payload>) {
        self.listener.on_ability_lifecycle(event);
        self.log = Ghost(self.log@.push(ability_fact(event)));
    }
}

/// Execution participant for ability activation commands.
pub trait AbilityActivationExecutor<Context, Tags, Payload> {
    type Error;
    type BlockReason;

    /// Summaries of the facts emitted through this executor, in order.
    spec fn emitted(&self) -> Seq<AbilityFact>;

    /// The attempts this executor has been asked about, in order, as an attempt fact reports
    /// them.
    spec fn consulted(&self) -> Seq<AbilityFact>;

    /// Whether this executor allows every attempt it is asked about; an executor promises
    /// this only by saying so.
    open spec fn allows_every_attempt(&self) -> bool {
        false
    }

    fn can_activate(
        &mut self,
        context: &Context,
        attempt: AbilityActivationAttemptView<'_, Tags, Payload>,
    ) -> (decision: Result<AbilityActivationDecision<Self::BlockReason>, Self::Error>)
        ensures
            final(self).emitted() == old(self).emitted(),
            final(self).consulted() == old(self).consulted().push(
                attempt_fact(AbilityFactKind::Attempted, attempt),
            ),
            final(self).allows_every_attempt() == old(self).allows_every_attempt(),
            old(self).allows_every_attempt() ==> (decision matches Ok(
                AbilityActivationDecision::Allow,
            )),
    ;

    fn emit_ability_lifecycle(&mut self, event: AbilityLifecycleEventView<'_, Tags, Payload>)
        ensures
            final(self).emitted() == old(self).emitted().push(ability_fact(event)),
            final(self).consulted() == old(self).consulted(),
            final(self).allows_every_attempt() == old(self).allows_every_attempt(),
    ;
}

/// Activation executor that always allows activation.
#[derive(Clone, Copy)]
pub struct NoAbilityActivationExecutor<Sink = DiscardAbilityLifecycleEvents> {
    sink: Sink,
    asked: Ghost<Seq<AbilityFact>>,
}

impl NoAbilityActivationExecutor<DiscardAbilityLifecycleEvents> {
    pub fn new() -> (executor: NoAbilityActivationExecutor<DiscardAbilityLifecycleEvents>)
        ensures
            executor.sink().dropped() == Seq::<AbilityFact>::empty(),
    {
        NoAbilityActivationExecutor { sink: DiscardAbilityLifecycleEvents::new(), asked: Ghost(Seq::empty()) }
    }
}

impl<Sink> NoAbilityActivationExecutor<Sink> {
    /// The wrapped sink.
    pub closed spec fn sink(&self) -> Sink {
        self.sink
    }

    /// Replaces the lifecycle sink with `emit`, which receives borrowed facts.
    pub fn with_borrowed_events<F>(self, emit: F) -> (executor: NoAbilityActivationExecutor<F>)
        ensures
            executor.sink() == emit,
    {
        NoAbilityActivationExecutor { sink: emit, asked: self.asked }
    }
}

impl<Context, Tags, Payload, Sink: AbilityLifecycleSink<Tags, Payload>> AbilityActivationExecutor<
    Context,
    Tags,
    Payload,
> for NoAbilityActivationExecutor<Sink> {
    type Error = Infallible;
    type BlockReason = Infallible;

    closed spec fn emitted(&self) -> Seq<AbilityFact> {
        self.sink.emitted()
    }

    closed spec fn consulted(&self) -> Seq<AbilityFact> {
        self.asked@
    }

    open spec fn allows_every_attempt(&self) -> bool {
        true
    }

    fn can_activate(
        &mut self,
        _context: &Context,
        attempt: AbilityActivationAttemptView<'_, Tags, Payload>,
    ) -> (decision: Result<AbilityActivationDecision<Infallible>, Infallible>)
        ensures
            decision == Ok::<AbilityActivationDecision<Infallible>, Infallible>(
                AbilityActivationDecision::Allow,
            ),
    {
        self.asked = Ghost(self.asked@.push(attempt_fact(AbilityFactKind::Attempted, attempt)));
        Ok(AbilityActivationDecision::Allow)
    }

    fn emit_ability_lifecycle(&mut self, event: AbilityLifecycleEventView<'_, Tags, Payload>) {
        self.sink.emit_ability_lifecycle(event);
    }
}

/// Activation executor that adapts a caller-owned gate and a lifecycle sink.
pub struct AbilityGateExecutor<'gate, Gate, Sink = DiscardAbilityLifecycleEvents> {
    gate: &'gate mut Gate,
    sink: Sink,    asked: Ghost<Seq<AbilityFact>>,
}

impl<'gate, Gate> AbilityGateExecutor<'gate, Gate, DiscardAbilityLifecycleEvents> {
    pub fn new(gate: &'gate mut Gate) -> (executor: AbilityGateExecutor<
        'gate,
        Gate,
        DiscardAbilityLifecycleEvents,
    >)
        ensures
            executor.sink().dropped() == Seq::<AbilityFact>::empty(),
    {
        AbilityGateExecutor { gate, sink: DiscardAbilityLifecycleEvents::new(), asked: Ghost(Seq::empty()) }
    }
}

impl<'gate, Gate, Sink> AbilityGateExecutor<'gate, Gate, Sink> {
    /// The wrapped sink.
    pub closed spec fn sink(&self) -> Sink {
        self.sink
    }

    /// The caller's gate as this executor currently holds it.
    pub closed spec fn gate(&self) -> Gate {
        *self.gate
    }

    /// Replaces the lifecycle sink with `emit`, which receives borrowed facts.
    pub fn with_borrowed_events<F>(self, emit: F) -> (executor: AbilityGateExecutor<'gate, Gate, F>)
        ensures
            executor.sink() == emit,
    {
        AbilityGateExecutor { gate: self.gate, sink: emit, asked: self.asked }
    }
}

impl<
    'gate,
    Context,
    Gate: AbilityActivationGate<Context, Tags, Payload>,
    Tags,
    Payload,
    Sink: AbilityLifecycleSink<Tags, Payload>,
> AbilityActivationExecutor<Context, Tags, Payload> for AbilityGateExecutor<'gate, Gate, Sink> {
    type Error = Gate::Error;
    type BlockReason = Gate::BlockReason;

    closed spec fn emitted(&self) -> Seq<AbilityFact> {
        self.sink.emitted()
    }

    closed spec fn consulted(&self) -> Seq<AbilityFact> {
        self.asked@
    }

    open spec fn allows_every_attempt(&self) -> bool {
        false
    }

    fn can_activate(
        &mut self,
        context: &Context,
        attempt: AbilityActivationAttemptView<'_, Tags, Payload>,
    ) -> (decision: Result<AbilityActivationDecision<Gate::BlockReason>, Gate::Error>)
        ensures
            final(self).sink() == old(self).sink(),
            exists|gate: &mut Gate|
                {
                    &&& #[trigger] call_ensures(Gate::can_activate, (gate, context, attempt), decision)
                    &&& mut_ref_current(gate) == old(self).gate()
                    &&& mut_ref_future(gate) == final(self).gate()
                },
    {
        self.asked = Ghost(self.asked@.push(attempt_fact(AbilityFactKind::Attempted, attempt)));
        self.gate.can_activate(context, attempt)
    }

    fn emit_ability_lifecycle(&mut self, event: AbilityLifecycleEventView<'_, Tags, Payload>) {
        self.sink.emit_ability_lifecycle(event);
    }
}

/// Execution participant for ability commit commands.
pub trait AbilityCommitExecutor<Context, Tags, Payload> {
    type Error;

    /// Summaries of the facts emitted through this executor, in order.
    spec fn emitted(&self) -> Seq<AbilityFact>;

    /// The activations handed to the commit action, in order, as a commit fact reports them.
    spec fn applied(&self) -> Seq<AbilityFact>;

    /// Whether this executor's commit action never fails; an executor promises this only by
    /// saying so.
    open spec fn applies_every_commit(&self) -> bool {
        false
    }

    fn apply_commit(
        &mut self,
        context: &mut Context,
        active: ActiveAbilityView<'_, Tags, Payload>,
    ) -> (result: Result<(), Self::Error>)
        ensures
            final(self).emitted() == old(self).emitted(),
            final(self).applied() == old(self).applied().push(active_fact(AbilityFactKind::Committed, active)),
            old(self).applies_every_commit() ==> result is Ok,
    ;

    fn emit_ability_lifecycle(&mut self, event: AbilityLifecycleEventView<'_, Tags, Payload>)
        ensures
            final(self).emitted() == old(self).emitted().push(ability_fact(event)),
            final(self).applied() == old(self).applied(),
    ;
}

/// Commit executor that performs no caller-owned work.
#[derive(Clone, Copy)]
pub struct NoAbilityCommitExecutor<Sink = DiscardAbilityLifecycleEvents> {
    sink: Sink,
    asked: Ghost<Seq<AbilityFact>>,
}

impl NoAbilityCommitExecutor<DiscardAbilityLifecycleEvents> {
    pub fn new() -> (executor: NoAbilityCommitExecutor<DiscardAbilityLifecycleEvents>)
        ensures
            executor.sink().dropped() == Seq::<AbilityFact>::empty(),
    {
        NoAbilityCommitExecutor { sink: DiscardAbilityLifecycleEvents::new(), asked: Ghost(Seq::empty()) }
    }
}

impl<Sink> NoAbilityCommitExecutor<Sink> {
    /// The wrapped sink.
    pub closed spec fn sink(&self) -> Sink {
        self.sink
    }

    /// Replaces the lifecycle sink with `emit`, which receives borrowed facts.
    pub fn with_borrowed_events<F>(self, emit: F) -> (executor: NoAbilityCommitExecutor<F>)
        ensures
            executor.sink() == emit,
    {
        NoAbilityCommitExecutor { sink: emit, asked: self.asked }
    }
}

impl<Context, Tags, Payload, Sink: AbilityLifecycleSink<Tags, Payload>> AbilityCommitExecutor<
    Context,
    Tags,
    Payload,
> for NoAbilityCommitExecutor<Sink> {
    type Error = Infallible;

    closed spec fn emitted(&self) -> Seq<AbilityFact> {
        self.sink.emitted()
    }

    closed spec fn applied(&self) -> Seq<AbilityFact> {
        self.asked@
    }

    open spec fn applies_every_commit(&self) -> bool {
        true
    }

    fn apply_commit(
        &mut self,
        _context: &mut Context,
        active: ActiveAbilityView<'_, Tags, Payload>,
    ) -> (result: Result<(), Infallible>)
        ensures
            result is Ok,
    {
        self.asked = Ghost(self.asked@.push(active_fact(AbilityFactKind::Committed, active)));
        Ok(())
    }

    fn emit_ability_lifecycle(&mut self, event: AbilityLifecycleEventView<'_, Tags, Payload>) {
        self.sink.emit_ability_lifecycle(event);
    }
}

/// Commit executor that adapts a caller-owned action and a lifecycle sink.
pub struct AbilityCommitActionExecutor<'action, Action, Sink = DiscardAbilityLifecycleEvents> {
    action: &'action mut Action,
    sink: Sink,    asked: Ghost<Seq<AbilityFact>>,
}

impl<'action, Action> AbilityCommitActionExecutor<'action, Action, DiscardAbilityLifecycleEvents> {
    pub fn new(action: &'action mut Action) -> (executor: AbilityCommitActionExecutor<
        'action,
        Action,
        DiscardAbilityLifecycleEvents,
    >)
        ensures
            executor.sink().dropped() == Seq::<AbilityFact>::empty(),
    {
        AbilityCommitActionExecutor { action, sink: DiscardAbilityLifecycleEvents::new(), asked: Ghost(Seq::empty()) }
    }
}

impl<'action, Action, Sink> AbilityCommitActionExecutor<'action, Action, Sink> {
    /// The wrapped sink.
    pub closed spec fn sink(&self) -> Sink {
        self.sink
    }

    /// The caller's commit action as this executor currently holds it.
    pub closed spec fn action(&self) -> Action {
        *self.action
    }

    /// Replaces the lifecycle sink with `emit`, which receives borrowed facts.
    pub fn with_borrowed_events<F>(self, emit: F) -> (executor: AbilityCommitActionExecutor<
        'action,
        Action,
        F,
    >)
        ensures
            executor.sink() == emit,
    {
        AbilityCommitActionExecutor { action: self.action, sink: emit, asked: self.asked }
    }
}

impl<
    'action,
    Context,
    Action: AbilityCommitAction<Context, Tags, Payload>,
    Tags,
    Payload,
    Sink: AbilityLifecycleSink<Tags, Payload>,
> AbilityCommitExecutor<Context, Tags, Payload> for AbilityCommitActionExecutor<
    'action,
    Action,
    Sink,
> {
    type Error = Action::Error;

    closed spec fn emitted(&self) -> Seq<AbilityFact> {
        self.sink.emitted()
    }

    closed spec fn applied(&self) -> Seq<AbilityFact> {
        self.asked@
    }

    open spec fn applies_every_commit(&self) -> bool {
        false
    }

    fn apply_commit(
        &mut self,
        context: &mut Context,
        active: ActiveAbilityView<'_, Tags, Payload>,
    ) -> (result: Result<(), Action::Error>)
        ensures
            final(self).sink() == old(self).sink(),
            exists|action: &mut Action, ctx: &mut Context|
                {
                    &&& #[trigger] call_ensures(Action::apply_commit, (action, ctx, active), result)
                    &&& mut_ref_current(action) == old(self).action()
                    &&& mut_ref_future(action) == final(self).action()
                    &&& mut_ref_current(ctx) == *old(context)
                    &&& mut_ref_future(ctx) == *final(context)
                },
    {
        self.asked = Ghost(self.asked@.push(active_fact(AbilityFactKind::Committed, active)));
        self.action.apply_commit(context, active)
    }

    fn emit_ability_lifecycle(&mut self, event: AbilityLifecycleEventView<'_, Tags, Payload>) {
        self.sink.emit_ability_lifecycle(event);
    }
}

} // verus!
