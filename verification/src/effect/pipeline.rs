//! Effect application and execution pipeline with caller-owned payloads.
use vstd::prelude::*;
use vstd::arithmetic::div_mod::{
    lemma_fundamental_div_mod_converse_div, lemma_fundamental_div_mod_converse_mod,
};

use super::application::{
    EffectApplicationDecision, EffectApplicationDraft, EffectApplicationInput,
    EffectApplicationRejectionView, EffectApplicationView, EffectExecutor, EffectInitializer,
    EffectLifecycleSink, EffectSourcePolicy,
};
use super::definition::{EffectClockPolicy, EffectDefinition, EffectDefinitionError, EffectKind};
use super::events::{
    execution_view_fact, instance_fact, ApplicationFact, EffectAdvanceView, EffectExecutionView, EffectFact,
    EffectInstance, EffectInstanceView, EffectLifecycleEventView, ExecutionFact, ExecutionRecord,
};
use super::ids::{lemma_active_effect_id_raw_injective, ActiveEffectId};
use crate::ability::indexed_store::{has_key, key_position, unique_keys, IdRecords, KeyedRecord};
use crate::clock::ClockUnits;
use crate::identity::{lemma_object_id_raw_injective, ObjectId, ObjectStore};
use crate::tag::TagCollection;
use crate::text::{as_key_ref, opt_string_view, text1};
use vstd::std_specs::convert::FromSpecImpl;

verus! {

impl<Tags, Payload> KeyedRecord for EffectInstance<Tags, Payload> {
    open spec fn record_key(&self) -> u64 {
        self.id.raw()
    }

    open spec fn record_owner(&self) -> ObjectId {
        self.target_id
    }

    fn key(&self) -> (key: u64) {
        self.id.get()
    }

    fn owner(&self) -> (owner: ObjectId) {
        self.target_id
    }
}

/// Which object references cause active effects to be removed during cleanup.
#[derive(Clone, Copy, Debug, PartialEq, Eq, Structural)]
pub enum EffectObjectRemovalPolicy {
    Source,
    Target,
    SourceOrTarget,
}

/// Whether `effect` references `object_id` in the way `policy` selects.
pub open spec fn policy_selects<Tags, Payload>(
    policy: EffectObjectRemovalPolicy,
    effect: EffectInstance<Tags, Payload>,
    object_id: ObjectId,
) -> bool {
    match policy {
        EffectObjectRemovalPolicy::Source => effect.source_id == Some(object_id),
        EffectObjectRemovalPolicy::Target => effect.target_id == object_id,
        EffectObjectRemovalPolicy::SourceOrTarget => effect.source_id == Some(object_id)
            || effect.target_id == object_id,
    }
}

impl EffectObjectRemovalPolicy {
    fn matches<Tags, Payload>(self, effect: &EffectInstance<Tags, Payload>, object_id: ObjectId) -> (selected:
        bool)
        ensures
            selected == policy_selects(self, *effect, object_id),
    {
        broadcast use lemma_object_id_raw_injective;
        let source_matches = match effect.source_id {
            Some(source_id) => source_id.get() == object_id.get(),
            None => false,
        };
        let target_matches = effect.target_id.get() == object_id.get();
        match self {
            EffectObjectRemovalPolicy::Source => source_matches,
            EffectObjectRemovalPolicy::Target => target_matches,
            EffectObjectRemovalPolicy::SourceOrTarget => source_matches || target_matches,
        }
    }
}

/// Runtime effect application failures.
#[derive(Clone, Debug, PartialEq, Eq)]
pub enum EffectApplicationError {
    Definition(EffectDefinitionError),
    MissingSource,
    InvalidSource { source_id: ObjectId },
    InvalidTarget { target_id: ObjectId },
}

impl From<EffectDefinitionError> for EffectApplicationError {
    fn from(value: EffectDefinitionError) -> (error: EffectApplicationError) {
        EffectApplicationError::Definition(value)
    }
}

impl FromSpecImpl<EffectDefinitionError> for EffectApplicationError {
    open spec fn obeys_from_spec() -> bool {
        true
    }

    open spec fn from_spec(value: EffectDefinitionError) -> EffectApplicationError {
        EffectApplicationError::Definition(value)
    }
}

/// Outcome of applying an effect definition.
#[derive(Clone, Copy, Debug, PartialEq, Eq, Structural)]
pub enum EffectApplyOutcome {
    Rejected,
    ExecutedInstant,
    ActiveCreated(ActiveEffectId),
}

/// An application resolved against its definition, ready for the pipeline.
pub struct PreparedEffectApplication<'definition, Tags, Payload> {
    pub definition_key: &'definition str,
    pub kind: EffectKind,
    pub duration: Option<EffectClockPolicy>,
    pub period: Option<EffectClockPolicy>,
    pub source_id: Option<ObjectId>,
    pub target_id: ObjectId,
    pub tags: Tags,
    pub payload: Payload,
    pub decision: EffectApplicationDecision,
}

/// `prepared` carries `definition`'s key, kind, and clocks, and `input`'s references, data,
/// and decision.
pub open spec fn prepared_from<Schema, Tags, Payload>(
    prepared: PreparedEffectApplication<'_, Tags, Payload>,
    definition: EffectDefinition<Schema>,
    input: EffectApplicationInput<Tags, Payload>,
) -> bool {
    &&& prepared.definition_key@ == definition.key@
    &&& prepared.kind == definition.kind
    &&& prepared.duration == definition.duration
    &&& prepared.period == definition.period
    &&& prepared.source_id == input.source_id
    &&& prepared.target_id == input.target_id
    &&& prepared.tags == input.tags
    &&& prepared.payload == input.payload
    &&& prepared.decision == input.decision
}

/// `after` differs from `before` at most in what an initializer may rewrite.
pub open spec fn initialized_from<Tags, Payload>(
    after: PreparedEffectApplication<'_, Tags, Payload>,
    before: PreparedEffectApplication<'_, Tags, Payload>,
) -> bool {
    &&& after.definition_key == before.definition_key
    &&& after.kind == before.kind
    &&& after.source_id == before.source_id
    &&& after.target_id == before.target_id
    &&& after.tags == before.tags
    &&& after.decision == before.decision
}

impl<'definition, Tags, Payload> PreparedEffectApplication<'definition, Tags, Payload> {
    pub fn new<Schema>(
        definition: &'definition EffectDefinition<Schema>,
        input: EffectApplicationInput<Tags, Payload>,
    ) -> (prepared: Self)
        ensures
            prepared_from(prepared, *definition, input),
    {
        let EffectApplicationInput { source_id, target_id, tags, payload, decision } = input;
        PreparedEffectApplication {
            definition_key: definition.key.as_str(),
            kind: definition.kind,
            duration: definition.duration,
            period: definition.period,
            source_id,
            target_id,
            tags,
            payload,
            decision,
        }
    }

    /// Hands the payload and clocks to `initializer` and takes back what it leaves.
    pub fn initialize<Context, Initializer: EffectInitializer<Context, Tags, Payload>>(
        self,
        context: &mut Context,
        initializer: &mut Initializer,
    ) -> (result: Result<Self, Initializer::Error>)
        ensures
            result matches Ok(prepared) ==> initialized_from(prepared, self),
            old(initializer).leaves_drafts_unchanged() ==> result == Ok::<
                Self,
                Initializer::Error,
            >(self),
            exists|
                init: &mut Initializer,
                ctx: &mut Context,
                draft: &mut EffectApplicationDraft<'_, Tags, Payload>,
                outcome: Result<(), Initializer::Error>,
            |
                {
                    &&& #[trigger] call_ensures(Initializer::initialize, (init, ctx, draft), outcome)
                    &&& mut_ref_current(init) == *old(initializer)
                    &&& mut_ref_future(init) == *final(initializer)
                    &&& mut_ref_current(ctx) == *old(context)
                    &&& mut_ref_future(ctx) == *final(context)
                    &&& draft_of(mut_ref_current(draft), self)
                    &&& result == taken_back(self, mut_ref_future(draft), outcome)
                },
    {
        let PreparedEffectApplication {
            definition_key,
            kind,
            duration,
            period,
            source_id,
            target_id,
            tags,
            payload,
            decision,
        } = self;
        let mut draft = EffectApplicationDraft {
            definition_key,
            source_id,
            target_id,
            tags: &tags,
            payload,
            duration,
            period,
        };
        let outcome = initializer.initialize(context, &mut draft);
        let EffectApplicationDraft { payload, duration, period, .. } = draft;
        match outcome {
            Ok(()) => Ok(
                PreparedEffectApplication {
                    definition_key,
                    kind,
                    duration,
                    period,
                    source_id,
                    target_id,
                    tags,
                    payload,
                    decision,
                },
            ),
            Err(error) => Err(error),
        }
    }
}

/// `draft` is the draft an initializer of `prepared` starts from: its key, references, tags,
/// payload, and clocks.
pub open spec fn draft_of<Tags, Payload>(
    draft: EffectApplicationDraft<'_, Tags, Payload>,
    prepared: PreparedEffectApplication<'_, Tags, Payload>,
) -> bool {
    &&& draft.definition_key@ == prepared.definition_key@
    &&& draft.source_id == prepared.source_id
    &&& draft.target_id == prepared.target_id
    &&& *draft.tags == prepared.tags
    &&& draft.payload == prepared.payload
    &&& draft.duration == prepared.duration
    &&& draft.period == prepared.period
}

/// What initializing `prepared` returns when the initializer answered `outcome` and left
/// `draft`: the prepared application with the draft's payload and clocks, or the
/// initializer's error.
pub open spec fn taken_back<'definition, Tags, Payload, E>(
    prepared: PreparedEffectApplication<'definition, Tags, Payload>,
    draft: EffectApplicationDraft<'_, Tags, Payload>,
    outcome: Result<(), E>,
) -> Result<PreparedEffectApplication<'definition, Tags, Payload>, E> {
    match outcome {
        Ok(()) => Ok(
            PreparedEffectApplication {
                payload: draft.payload,
                duration: draft.duration,
                period: draft.period,
                ..prepared
            },
        ),
        Err(error) => Err(error),
    }
}

/// The instance an accepted, non-instant application of `input` creates under `id`, for a
/// definition keyed `key` with clocks `duration` and `period`.
pub open spec fn created_instance<Tags, Payload>(
    effect: EffectInstance<Tags, Payload>,
    key: Seq<char>,
    duration: Option<EffectClockPolicy>,
    period: Option<EffectClockPolicy>,
    input: EffectApplicationInput<Tags, Payload>,
    id: ActiveEffectId,
) -> bool {
    &&& effect.id == id
    &&& opt_string_view(effect.definition_key) == Some(key)
    &&& effect.source_id == input.source_id
    &&& effect.target_id == input.target_id
    &&& effect.remaining_units == match duration {
        Some(d) => Some(d.units),
        None => None,
    }
    &&& effect.period == period
    &&& effect.period_elapsed_units == 0
    &&& effect.tags == input.tags
    &&& effect.payload == input.payload
}

/// The application data `prepared` carries.
pub open spec fn prepared_input<Tags, Payload>(
    prepared: PreparedEffectApplication<'_, Tags, Payload>,
) -> EffectApplicationInput<Tags, Payload> {
    EffectApplicationInput {
        source_id: prepared.source_id,
        target_id: prepared.target_id,
        tags: prepared.tags,
        payload: prepared.payload,
        decision: prepared.decision,
    }
}

/// How applying `input` under a definition keyed `key` of `kind`, with clocks `duration` and
/// `period`, takes a pipeline from effects `before` and id cursor `before_next` to `after` and
/// `after_next`, and what it reports, given its outcome (`None` when the executor's action
/// failed).
///
/// A rejection is reported and changes nothing. An accepted instant application reports the
/// acceptance, runs the action, reports the execution, and creates nothing. Any other accepted
/// application reports the acceptance, creates an instance under the next id, and reports it.
pub open spec fn application_applied<Tags, Payload>(
    before: Seq<EffectInstance<Tags, Payload>>,
    before_next: u64,
    after: Seq<EffectInstance<Tags, Payload>>,
    after_next: u64,
    facts_before: Seq<EffectFact>,
    facts_after: Seq<EffectFact>,
    executed_before: Seq<ExecutionRecord>,
    executed_after: Seq<ExecutionRecord>,
    key: Seq<char>,
    kind: EffectKind,
    duration: Option<EffectClockPolicy>,
    period: Option<EffectClockPolicy>,
    input: EffectApplicationInput<Tags, Payload>,
    executes_every_effect: bool,
    outcome: Option<EffectApplyOutcome>,
) -> bool {
    let application = application_fact(key, input);
    let accepted = EffectFact::ApplicationAccepted(application);
    let unchanged = after == before && after_next == before_next;
    &&& input.decision matches EffectApplicationDecision::Reject { reason } ==> outcome == Some(
        EffectApplyOutcome::Rejected,
    ) && unchanged && executed_after == executed_before && facts_after == facts_before.push(
        EffectFact::ApplicationRejected { application, reason: reason@ },
    )
    &&& input.decision is Accept && kind == EffectKind::Instant ==> unchanged && executed_after
        == executed_before.push(
        ExecutionRecord {
            execution: instant_execution(key, input),
            after_facts: facts_before.len() + 1,
            succeeded: outcome is Some,
        },
    ) && {
        ||| (outcome == Some(EffectApplyOutcome::ExecutedInstant) && facts_after == facts_before.push(
            accepted,
        ).push(EffectFact::Executed(instant_execution(key, input))))
        ||| (outcome is None && facts_after == facts_before.push(accepted) && !executes_every_effect)
    }
    &&& input.decision is Accept && kind != EffectKind::Instant ==> {
        let id = after.last().id;
        &&& outcome == Some(EffectApplyOutcome::ActiveCreated(id))
        &&& id.raw() == before_next
        &&& after.drop_last() == before
        &&& after.len() == before.len() + 1
        &&& created_instance(after.last(), key, duration, period, input, id)
        &&& after_next == before_next + 1
        &&& executed_after == executed_before
        &&& facts_after == facts_before.push(accepted).push(EffectFact::ActiveCreated(instance_fact(after.last())))
    }
}

/// Handed an execution that reports as `execution`, an executor of this kind can answer
/// `result`.
pub open spec fn execution_answered<Context, Tags, Payload, Executor: EffectExecutor<Context, Tags, Payload>>(
    execution: ExecutionFact,
    result: Result<(), Executor::Error>,
) -> bool {
    exists|executor: &mut Executor, context: &mut Context, view: EffectExecutionView<'_, Tags, Payload>|
        #[trigger] call_ensures(Executor::execute_effect, (executor, context, view), result)
            && execution_view_fact(view) == execution
}

/// Handed an execution that reports as `execution`, an executor of this kind can report success.
pub open spec fn execution_succeeded<Context, Tags, Payload, Executor: EffectExecutor<Context, Tags, Payload>>(
    execution: ExecutionFact,
) -> bool {
    exists|
        executor: &mut Executor,
        context: &mut Context,
        view: EffectExecutionView<'_, Tags, Payload>,
        answer: Result<(), Executor::Error>,
    |
        #[trigger] call_ensures(Executor::execute_effect, (executor, context, view), answer) && answer is Ok
            && execution_view_fact(view) == execution
}

/// What the facts of applying `input` under a definition keyed `key` report of the application.
pub open spec fn application_fact<Tags, Payload>(key: Seq<char>, input: EffectApplicationInput<Tags, Payload>) -> ApplicationFact {
    ApplicationFact { key: Some(key), source_id: input.source_id, target_id: input.target_id }
}

/// The execution an accepted instant application of `input` under `key` hands to the action.
pub open spec fn instant_execution<Tags, Payload>(key: Seq<char>, input: EffectApplicationInput<Tags, Payload>) -> ExecutionFact {
    ExecutionFact {
        active_effect_id: None,
        key: Some(key),
        source_id: input.source_id,
        target_id: input.target_id,
        elapsed_units: None,
    }
}

/// The outcome a pipeline result reports, `None` for an execution failure.
pub open spec fn outcome_of<E>(result: Result<EffectApplyOutcome, E>) -> Option<EffectApplyOutcome> {
    match result {
        Ok(outcome) => Some(outcome),
        Err(_) => None,
    }
}

/// Units of `elapsed` that count against `effect`: all of them, or at most what remains.
pub open spec fn elapsed_for<Tags, Payload>(effect: EffectInstance<Tags, Payload>, elapsed: u64) -> u64 {
    match effect.remaining_units {
        Some(remaining) => if elapsed < remaining {
            elapsed
        } else {
            remaining
        },
        None => elapsed,
    }
}

/// Whether advancing `effect` by `elapsed` exhausts its remaining units.
pub open spec fn expires_within<Tags, Payload>(effect: EffectInstance<Tags, Payload>, elapsed: u64) -> bool {
    effect.remaining_units matches Some(remaining) && elapsed >= remaining
}

/// While at least a full period is still pending, fewer periods than the total holds have been
/// spent.
proof fn lemma_runs_before_total(total: int, period: int, runs: int, pending: int)
    requires
        period > 0,
        runs >= 0,
        pending >= period,
        total == pending + runs * period,
    ensures
        runs < total / period,
{
    assert(total >= (runs + 1) * period) by (nonlinear_arith)
        requires
            period > 0,
            pending >= period,
            total == pending + runs * period,
    ;
    assert(total / period >= runs + 1) by (nonlinear_arith)
        requires
            period > 0,
            runs >= 0,
            total >= (runs + 1) * period,
    ;
}

/// The effects of `effects` on `target_id`, in order.
pub open spec fn on_target<Tags, Payload>(
    effects: Seq<EffectInstance<Tags, Payload>>,
    target_id: ObjectId,
) -> Seq<EffectInstance<Tags, Payload>>
    decreases effects.len(),
{
    if effects.len() == 0 {
        Seq::empty()
    } else {
        let rest = on_target(effects.drop_last(), target_id);
        if effects.last().target_id == target_id {
            rest.push(effects.last())
        } else {
            rest
        }
    }
}

/// Period units accumulated by `effect` once `elapsed` is counted.
pub open spec fn accumulated_units<Tags, Payload>(effect: EffectInstance<Tags, Payload>, elapsed: u64) -> int {
    effect.period_elapsed_units + elapsed_for(effect, elapsed)
}

/// How many whole periods `effect` completes while advancing by `elapsed`.
pub open spec fn periodic_runs<Tags, Payload>(effect: EffectInstance<Tags, Payload>, elapsed: u64) -> nat {
    match effect.period {
        Some(period) => (accumulated_units(effect, elapsed) / (period.units as int)) as nat,
        None => 0,
    }
}

/// Remaining units after advancing by `elapsed`, saturating at zero.
pub open spec fn remaining_after(remaining: Option<u64>, elapsed: u64) -> Option<u64> {
    match remaining {
        Some(r) => Some(if elapsed < r {
            (r - elapsed) as u64
        } else {
            0u64
        }),
        None => None,
    }
}

/// `effect` after advancing by `elapsed` and running its completed periods.
pub open spec fn advanced_instance<Tags, Payload>(
    effect: EffectInstance<Tags, Payload>,
    elapsed: u64,
) -> EffectInstance<Tags, Payload> {
    EffectInstance {
        remaining_units: remaining_after(effect.remaining_units, elapsed),
        period_elapsed_units: match effect.period {
            Some(period) => (accumulated_units(effect, elapsed) % (period.units as int)) as u64,
            None => effect.period_elapsed_units,
        },
        ..effect
    }
}

/// `effect` after its timer counted `elapsed` and its period counter was left at `counter`, as
/// a failed periodic execution leaves it.
pub open spec fn interrupted_instance<Tags, Payload>(
    effect: EffectInstance<Tags, Payload>,
    elapsed: u64,
    counter: u64,
) -> EffectInstance<Tags, Payload> {
    EffectInstance {
        remaining_units: remaining_after(effect.remaining_units, elapsed),
        period_elapsed_units: counter,
        ..effect
    }
}

/// How an advance by `elapsed` that a failed periodic execution stopped takes `before` to
/// `after` and what it reports: the effects ahead of the interrupted one are advanced (and the
/// exhausted ones gone), the interrupted periodic effect has counted its time and spent the
/// periods whose executions completed before the failure, and the rest are untouched.
pub open spec fn interrupted_advance<Tags, Payload>(
    before: Seq<EffectInstance<Tags, Payload>>,
    after: Seq<EffectInstance<Tags, Payload>>,
    elapsed: u64,
    facts_before: Seq<EffectFact>,
    facts_after: Seq<EffectFact>,
    executed_before: Seq<ExecutionRecord>,
    executed_after: Seq<ExecutionRecord>,
) -> bool {
    exists|k: int, runs: nat|
        0 <= k < before.len() && before[k].period is Some && runs < periodic_runs(before[k], elapsed)
            && after == advanced_effects(before.take(k), elapsed).push(
            interrupted_instance(before[k], elapsed, counter_after_runs(before[k], elapsed, runs)),
        ) + before.skip(k + 1) && facts_after == facts_before + advanced_facts(before.take(k), elapsed)
            + #[trigger] interrupted_facts(before[k], elapsed, runs) && executed_after == executed_before
            + advanced_executions(before.take(k), elapsed, facts_before.len()) + interrupted_records(
            before[k],
            elapsed,
            facts_before.len() + advanced_facts(before.take(k), elapsed).len(),
            runs,
        )
}

/// The executions `effect`'s periods hand to the action when the one after `runs` successful
/// ones fails, the executor having emitted `base` facts before `effect` was advanced.
pub open spec fn interrupted_records<Tags, Payload>(
    effect: EffectInstance<Tags, Payload>,
    elapsed: u64,
    base: nat,
    runs: nat,
) -> Seq<ExecutionRecord> {
    let start = base + timer_facts(effect, elapsed).len();
    periodic_records(effect, start, runs).push(
        ExecutionRecord { execution: periodic_execution(effect), after_facts: start + runs, succeeded: false },
    )
}

/// The fact reporting one completed period of `effect`.
pub open spec fn periodic_fact<Tags, Payload>(effect: EffectInstance<Tags, Payload>) -> EffectFact {
    EffectFact::PeriodicExecuted(periodic_execution(effect))
}

/// The execution one completed period of `effect` hands to the action.
pub open spec fn periodic_execution<Tags, Payload>(effect: EffectInstance<Tags, Payload>) -> ExecutionFact {
    ExecutionFact {
        active_effect_id: Some(effect.id),
        key: opt_string_view(effect.definition_key),
        source_id: effect.source_id,
        target_id: effect.target_id,
        elapsed_units: match effect.period {
            Some(period) => Some(period.units),
            None => None,
        },
    }
}

/// The fact reporting the advance of `effect` by `elapsed`, for a timed effect only.
pub open spec fn timer_facts<Tags, Payload>(effect: EffectInstance<Tags, Payload>, elapsed: u64) -> Seq<
    EffectFact,
> {
    if effect.remaining_units is Some {
        seq![
            EffectFact::Advanced {
                effect: instance_fact(interrupted_instance(effect, elapsed, effect.period_elapsed_units)),
                elapsed_units: elapsed_for(effect, elapsed),
                previous_remaining_units: effect.remaining_units,
            },
        ]
    } else {
        Seq::empty()
    }
}

/// The facts advancing `effect` by `elapsed` reports before its periodic execution after
/// `runs` completed ones fails: the advance of a timed effect and those completed executions.
pub open spec fn interrupted_facts<Tags, Payload>(
    effect: EffectInstance<Tags, Payload>,
    elapsed: u64,
    runs: nat,
) -> Seq<EffectFact> {
    timer_facts(effect, elapsed) + Seq::new(runs, |i: int| periodic_fact(effect))
}

/// The period counter of `effect` once `elapsed` is counted and `runs` periods are spent.
pub open spec fn counter_after_runs<Tags, Payload>(
    effect: EffectInstance<Tags, Payload>,
    elapsed: u64,
    runs: nat,
) -> u64 {
    match effect.period {
        Some(period) => (accumulated_units(effect, elapsed) - runs * period.units) as u64,
        None => effect.period_elapsed_units,
    }
}

/// The facts advancing `effect` by `elapsed` reports: the advance of a timed effect, one
/// execution per completed period, and the expiry of an exhausted effect.
pub open spec fn advance_facts<Tags, Payload>(effect: EffectInstance<Tags, Payload>, elapsed: u64) -> Seq<
    EffectFact,
> {
    let advanced = timer_facts(effect, elapsed);
    let periodic = Seq::new(periodic_runs(effect, elapsed), |i: int| periodic_fact(effect));
    let expired = if expires_within(effect, elapsed) {
        seq![EffectFact::Expired(instance_fact(advanced_instance(effect, elapsed)))]
    } else {
        Seq::empty()
    };
    advanced + periodic + expired
}

/// The effects still active after advancing all of `effects` by `elapsed`, in order.
pub open spec fn advanced_effects<Tags, Payload>(
    effects: Seq<EffectInstance<Tags, Payload>>,
    elapsed: u64,
) -> Seq<EffectInstance<Tags, Payload>>
    decreases effects.len(),
{
    if effects.len() == 0 {
        Seq::empty()
    } else {
        let rest = advanced_effects(effects.drop_last(), elapsed);
        if expires_within(effects.last(), elapsed) {
            rest
        } else {
            rest.push(advanced_instance(effects.last(), elapsed))
        }
    }
}

/// The facts advancing all of `effects` by `elapsed` reports, effect by effect.
pub open spec fn advanced_facts<Tags, Payload>(
    effects: Seq<EffectInstance<Tags, Payload>>,
    elapsed: u64,
) -> Seq<EffectFact>
    decreases effects.len(),
{
    if effects.len() == 0 {
        Seq::empty()
    } else {
        advanced_facts(effects.drop_last(), elapsed) + advance_facts(effects.last(), elapsed)
    }
}

/// The executions one effect's completed periods hand to the action, all successful, the
/// first after `start` lifecycle facts and each after the fact reporting the one before.
pub open spec fn periodic_records<Tags, Payload>(
    effect: EffectInstance<Tags, Payload>,
    start: nat,
    runs: nat,
) -> Seq<ExecutionRecord> {
    Seq::new(
        runs,
        |j: int| ExecutionRecord { execution: periodic_execution(effect), after_facts: (start + j) as nat, succeeded: true },
    )
}

/// The executions advancing all of `effects` by `elapsed` hands to the action, effect by
/// effect, when the executor had emitted `base` facts before the advance: one per completed
/// period, each after the facts reported before it.
pub open spec fn advanced_executions<Tags, Payload>(
    effects: Seq<EffectInstance<Tags, Payload>>,
    elapsed: u64,
    base: nat,
) -> Seq<ExecutionRecord>
    decreases effects.len(),
{
    if effects.len() == 0 {
        Seq::empty()
    } else {
        advanced_executions(effects.drop_last(), elapsed, base) + periodic_records(
            effects.last(),
            base + advanced_facts(effects.drop_last(), elapsed).len() + timer_facts(effects.last(), elapsed).len(),
            periodic_runs(effects.last(), elapsed),
        )
    }
}

/// A periodic effect is timed, and its period counter plus its remaining units fit in
/// `ClockUnits`, so counting any further elapsed units cannot overflow the counter.
pub open spec fn counters_fit<Tags, Payload>(effect: EffectInstance<Tags, Payload>) -> bool {
    effect.period is Some ==> (effect.remaining_units matches Some(remaining)
        && effect.period_elapsed_units + remaining <= u64::MAX)
}

/// The effects of `effects` that `policy` selects for `object_id`, in order.
pub open spec fn selected_effects<Tags, Payload>(
    effects: Seq<EffectInstance<Tags, Payload>>,
    object_id: ObjectId,
    policy: EffectObjectRemovalPolicy,
) -> Seq<EffectInstance<Tags, Payload>>
    decreases effects.len(),
{
    if effects.len() == 0 {
        Seq::empty()
    } else {
        let rest = selected_effects(effects.drop_last(), object_id, policy);
        if policy_selects(policy, effects.last(), object_id) {
            rest.push(effects.last())
        } else {
            rest
        }
    }
}

/// The effects of `effects` that `policy` leaves for `object_id`, in order.
pub open spec fn kept_effects<Tags, Payload>(
    effects: Seq<EffectInstance<Tags, Payload>>,
    object_id: ObjectId,
    policy: EffectObjectRemovalPolicy,
) -> Seq<EffectInstance<Tags, Payload>>
    decreases effects.len(),
{
    if effects.len() == 0 {
        Seq::empty()
    } else {
        let rest = kept_effects(effects.drop_last(), object_id, policy);
        if policy_selects(policy, effects.last(), object_id) {
            rest
        } else {
            rest.push(effects.last())
        }
    }
}

/// Removal facts for each of `effects`, in order.
pub open spec fn removed_facts<Tags, Payload>(effects: Seq<EffectInstance<Tags, Payload>>) -> Seq<
    EffectFact,
> {
    Seq::new(effects.len(), |i: int| EffectFact::Removed(instance_fact(effects[i])))
}

/// Effect application and execution pipeline with caller-owned payloads.
pub struct EffectPipeline<Tags, Payload> {
    next_id: ActiveEffectId,
    effects: IdRecords<EffectInstance<Tags, Payload>>,
}

/// Whether `id` names a live object of `objects`.
pub open spec fn live_in(objects: Seq<ObjectId>, id: ObjectId) -> bool {
    id.raw() != 0 && objects.contains(id)
}

/// The verdict of checking `input`'s references against the live `objects`: the source, when
/// present, must be live, or else the policy must allow a missing source; then the target must
/// be live.
pub open spec fn reference_verdict<Tags, Payload>(
    objects: Seq<ObjectId>,
    input: EffectApplicationInput<Tags, Payload>,
    source_policy: EffectSourcePolicy,
) -> Result<(), EffectApplicationError> {
    if input.source_id is Some && !live_in(objects, input.source_id->0) {
        Err(EffectApplicationError::InvalidSource { source_id: input.source_id->0 })
    } else if input.source_id is None && source_policy == EffectSourcePolicy::RequireLiveSource {
        Err(EffectApplicationError::MissingSource)
    } else if !live_in(objects, input.target_id) {
        Err(EffectApplicationError::InvalidTarget { target_id: input.target_id })
    } else {
        Ok(())
    }
}

/// Checks an application's source and target against the live objects of `objects`.
pub fn validate_application_references<Tags, Payload>(
    objects: &ObjectStore,
    input: &EffectApplicationInput<Tags, Payload>,
    source_policy: EffectSourcePolicy,
) -> (result: Result<(), EffectApplicationError>)
    ensures
        result == reference_verdict(objects@, *input, source_policy),
{
    match input.source_id {
        Some(source_id) => {
            if !objects.is_live(source_id) {
                return Err(EffectApplicationError::InvalidSource { source_id });
            }
        },
        None => {
            match source_policy {
                EffectSourcePolicy::RequireLiveSource => {
                    return Err(EffectApplicationError::MissingSource);
                },
                EffectSourcePolicy::AllowSystemSource => {},
            }
        },
    }
    if !objects.is_live(input.target_id) {
        return Err(EffectApplicationError::InvalidTarget { target_id: input.target_id });
    }
    Ok(())
}

impl<Tags, Payload> EffectPipeline<Tags, Payload> {
    /// Active effects in application order.
    pub closed spec fn effects(&self) -> Seq<EffectInstance<Tags, Payload>> {
        self.effects@
    }

    /// The raw id the next active effect receives.
    pub closed spec fn next_id_raw(&self) -> u64 {
        self.next_id.raw()
    }

    /// Ids are unique, nonzero, and below the cursor; every period is nonzero and its counter
    /// fits beside the effect's remaining units.
    pub closed spec fn wf(&self) -> bool {
        &&& self.effects.wf()
        &&& self.next_id.raw() >= 1
        &&& forall|i: int|
            0 <= i < self.effects@.len() ==> {
                &&& (#[trigger] self.effects@[i]).id.raw() != 0
                &&& self.effects@[i].id.raw() < self.next_id.raw()
                &&& self.effects@[i].period matches Some(period) ==> period.units > 0
                &&& counters_fit(self.effects@[i])
            }
    }

    pub fn new() -> (pipeline: Self)
        ensures
            pipeline.wf(),
            pipeline.effects() == Seq::<EffectInstance<Tags, Payload>>::empty(),
            pipeline.next_id_raw() == 1,
    {
        EffectPipeline { next_id: ActiveEffectId::new(1), effects: IdRecords::new() }
    }

    pub fn count(&self) -> (n: usize)
        ensures
            n == self.effects().len(),
    {
        self.effects.len()
    }

    /// Active effects in application order.
    pub fn instances(&self) -> (effects: &[EffectInstance<Tags, Payload>])
        ensures
            effects@ == self.effects(),
    {
        self.effects.as_slice()
    }

    pub fn get(&self, effect_id: ActiveEffectId) -> (effect: Option<&EffectInstance<Tags, Payload>>)
        requires
            self.wf(),
        ensures
            match effect {
                Some(e) => has_key(self.effects(), effect_id.raw()) && *e == self.effects()[key_position(
                    self.effects(),
                    effect_id.raw(),
                )] && e.id == effect_id,
                None => !has_key(self.effects(), effect_id.raw()),
            },
    {
        broadcast use lemma_active_effect_id_raw_injective;
        self.effects.get(effect_id.get())
    }

    /// Removes an active effect instance by id without constructing lifecycle events.
    /// Active effects on `target_id`, in application order.
    pub fn instances_on(&self, target_id: ObjectId) -> (effects: Vec<&EffectInstance<Tags, Payload>>)
        ensures
            effects@.len() == on_target(self.effects(), target_id).len(),
            forall|i: int| 0 <= i < effects@.len() ==> *effects@[i] == on_target(self.effects(), target_id)[i],
    {
        broadcast use lemma_object_id_raw_injective;
        let all = self.effects.as_slice();
        let mut effects: Vec<&EffectInstance<Tags, Payload>> = Vec::new();
        let mut index: usize = 0;
        while index < all.len()
            invariant
                all@ == self.effects(),
                0 <= index <= all@.len(),
                effects@.len() == on_target(all@.take(index as int), target_id).len(),
                forall|i: int|
                    0 <= i < effects@.len() ==> *effects@[i] == on_target(all@.take(index as int), target_id)[i],
            decreases all@.len() - index,
        {
            let ghost prev = on_target(all@.take(index as int), target_id);
            proof {
                let next = all@.take(index + 1);
                assert(next.drop_last() == all@.take(index as int));
                assert(next.last() == all@[index as int]);
                assert(on_target(next, target_id) == (if all@[index as int].target_id == target_id {
                    prev.push(all@[index as int])
                } else {
                    prev
                }));
            }
            proof {
                lemma_object_id_raw_injective(all@[index as int].target_id, target_id);
            }
            if all[index].target_id.get() == target_id.get() {
                let ghost before = effects@;
                effects.push(&all[index]);
                assert(forall|i: int| 0 <= i < before.len() ==> effects@[i] == before[i]);
            }
            index = index + 1;
        }
        proof {
            assert(all@.take(all@.len() as int) == all@);
        }
        effects
    }

    /// Active effects of a well-formed pipeline have distinct ids.
    pub proof fn lemma_ids_unique(&self)
        requires
            self.wf(),
        ensures
            unique_keys(self.effects()),
    {
        self.effects.lemma_unique();
    }

    pub fn remove(&mut self, effect_id: ActiveEffectId) -> (removed: Option<EffectInstance<Tags, Payload>>)
        requires
            old(self).wf(),
        ensures
            final(self).wf(),
            final(self).next_id_raw() == old(self).next_id_raw(),
            !has_key(final(self).effects(), effect_id.raw()),
            match removed {
                Some(e) => has_key(old(self).effects(), effect_id.raw()) && e == old(self).effects()[key_position(
                    old(self).effects(),
                    effect_id.raw(),
                )] && final(self).effects() == old(self).effects().remove(
                    key_position(old(self).effects(), effect_id.raw()),
                ),
                None => !has_key(old(self).effects(), effect_id.raw()) && final(self).effects()
                    == old(self).effects(),
            },
    {
        broadcast use lemma_active_effect_id_raw_injective;
        let removed = self.effects.remove(effect_id.get());
        proof {
            if removed is Some {
                let p = key_position(old(self).effects@, effect_id.raw());
                self.lemma_removal_keeps_invariant(*old(self), p);
                old(self).effects.lemma_unique();
                if has_key(self.effects@, effect_id.raw()) {
                    let i = choose|i: int|
                        0 <= i < self.effects@.len() && (#[trigger] self.effects@[i]).record_key()
                            == effect_id.raw();
                    let j = if i < p { i } else { i + 1 };
                    assert(old(self).effects@[j] == self.effects@[i]);
                    assert(old(self).effects@[p].record_key() == effect_id.raw());
                }
            }
        }
        removed
    }

    /// Removes an active effect instance by id and reports its removal into `sink`.
    pub fn remove_with_sink<Sink: EffectLifecycleSink<Tags, Payload>>(
        &mut self,
        effect_id: ActiveEffectId,
        sink: &mut Sink,
    ) -> (removed: Option<EffectInstance<Tags, Payload>>)
        requires
            old(self).wf(),
        ensures
            final(self).wf(),
            final(self).next_id_raw() == old(self).next_id_raw(),
            !has_key(final(self).effects(), effect_id.raw()),
            match removed {
                Some(e) => has_key(old(self).effects(), effect_id.raw()) && e == old(self).effects()[key_position(
                    old(self).effects(),
                    effect_id.raw(),
                )] && final(self).effects() == old(self).effects().remove(
                    key_position(old(self).effects(), effect_id.raw()),
                ) && final(sink).emitted() == old(sink).emitted().push(EffectFact::Removed(instance_fact(e))),
                None => !has_key(old(self).effects(), effect_id.raw()) && final(self).effects()
                    == old(self).effects() && final(sink).emitted() == old(sink).emitted(),
            },
    {
        broadcast use lemma_active_effect_id_raw_injective;
        match self.remove(effect_id) {
            Some(removed) => {
                assert(removed.id.raw() == effect_id.raw());
                sink.emit_effect_lifecycle(
                    EffectLifecycleEventView::Removed(EffectInstanceView::from_instance(&removed)),
                );
                Some(removed)
            },
            None => None,
        }
    }

    /// Removes active effects that reference `object_id` according to `policy`.
    pub fn remove_for_object(&mut self, object_id: ObjectId, policy: EffectObjectRemovalPolicy) -> (removed:
        Vec<EffectInstance<Tags, Payload>>)
        requires
            old(self).wf(),
        ensures
            final(self).wf(),
            final(self).next_id_raw() == old(self).next_id_raw(),
            final(self).effects() == kept_effects(old(self).effects(), object_id, policy),
            removed@ == selected_effects(old(self).effects(), object_id, policy),
    {
        let mut sink = super::application::DiscardEffectLifecycleEvents::new();
        self.remove_for_object_with_sink(object_id, policy, &mut sink)
    }

    /// Removes active effects that reference `object_id` and reports each removal into `sink`.
    pub fn remove_for_object_with_sink<Sink: EffectLifecycleSink<Tags, Payload>>(
        &mut self,
        object_id: ObjectId,
        policy: EffectObjectRemovalPolicy,
        sink: &mut Sink,
    ) -> (removed: Vec<EffectInstance<Tags, Payload>>)
        requires
            old(self).wf(),
        ensures
            final(self).wf(),
            final(self).next_id_raw() == old(self).next_id_raw(),
            final(self).effects() == kept_effects(old(self).effects(), object_id, policy),
            removed@ == selected_effects(old(self).effects(), object_id, policy),
            final(sink).emitted() == old(sink).emitted() + removed_facts(removed@),
    {
        let ghost original = self.effects@;
        let ghost before = sink.emitted();
        let mut removed: Vec<EffectInstance<Tags, Payload>> = Vec::new();
        let mut index: usize = 0;
        let ghost mut k: int = 0;
        while index < self.effects.len()
            invariant
                self.wf(),
                self.next_id == old(self).next_id,
                0 <= k <= original.len(),
                self.effects@ == kept_effects(original.take(k), object_id, policy) + original.skip(k),
                removed@ == selected_effects(original.take(k), object_id, policy),
                index == kept_effects(original.take(k), object_id, policy).len(),
                sink.emitted() == before + removed_facts(removed@),
            decreases original.len() - k,
        {
            let ghost kept = kept_effects(original.take(k), object_id, policy);
            proof {
                assert(original.take(k + 1).drop_last() == original.take(k));
                assert(self.effects@[index as int] == original[k]);
                assert(original.take(k + 1).last() == original[k]);
            }
            if policy.matches(&self.effects.as_slice()[index], object_id) {
                let ghost before_removal = *self;
                let effect = self.effects.remove_at(index);
                proof {
                    self.lemma_removal_keeps_invariant(before_removal, index as int);
                }
                sink.emit_effect_lifecycle(
                    EffectLifecycleEventView::Removed(EffectInstanceView::from_instance(&effect)),
                );
                let ghost removed_before = removed@;
                removed.push(effect);
                proof {
                    assert(self.effects@ == kept + original.skip(k + 1));
                    assert(removed_facts(removed@) == removed_facts(removed_before).push(
                        EffectFact::Removed(instance_fact(effect)),
                    ));
                }
            } else {
                index = index + 1;
                proof {
                    assert(self.effects@ == kept.push(original[k]) + original.skip(k + 1));
                }
            }
            proof {
                k = k + 1;
            }
        }
        proof {
            assert(original.take(k) + original.skip(k) == original);
            if k < original.len() {
                assert(self.effects@.len() == index + (original.len() - k));
            }
            assert(k == original.len());
            assert(original.take(k) == original);
        }
        removed
    }

    /// Removing the record at `p` keeps ids below the cursor and periods consistent.
    proof fn lemma_removal_keeps_invariant(&self, before: Self, p: int)
        requires
            before.wf(),
            self.effects.wf(),
            self.next_id == before.next_id,
            0 <= p < before.effects@.len(),
            self.effects@ == before.effects@.remove(p),
        ensures
            self.wf(),
    {
        assert forall|i: int| 0 <= i < self.effects@.len() implies {
            &&& (#[trigger] self.effects@[i]).id.raw() != 0
            &&& self.effects@[i].id.raw() < self.next_id.raw()
            &&& self.effects@[i].period matches Some(period) ==> period.units > 0
            &&& counters_fit(self.effects@[i])
        } by {
            let j = if i < p { i } else { i + 1 };
            assert(before.effects@[j] == self.effects@[i]);
        }
    }

    /// Rewriting the timers of the record at `p` keeps ids below the cursor and periods
    /// consistent.
    proof fn lemma_timer_update_keeps_invariant(&self, before: Self, p: int)
        requires
            before.wf(),
            self.effects.wf(),
            self.next_id == before.next_id,
            0 <= p < before.effects@.len(),
            self.effects@.len() == before.effects@.len(),
            forall|i: int| 0 <= i < self.effects@.len() && i != p ==> self.effects@[i] == before.effects@[i],
            self.effects@[p].id == before.effects@[p].id,
            self.effects@[p].period == before.effects@[p].period,
            counters_fit(self.effects@[p]),
        ensures
            self.wf(),
    {
        assert forall|i: int| 0 <= i < self.effects@.len() implies {
            &&& (#[trigger] self.effects@[i]).id.raw() != 0
            &&& self.effects@[i].id.raw() < self.next_id.raw()
            &&& self.effects@[i].period matches Some(period) ==> period.units > 0
            &&& counters_fit(self.effects@[i])
        } by {
            assert(before.effects@[i].id == self.effects@[i].id);
            assert(before.effects@[i].period == self.effects@[i].period);
        }
    }

    /// Applies a prepared application through `executor`.
    ///
    /// A rejected application is reported and changes nothing. An accepted instant application
    /// runs the executor's action once and creates no instance; any other accepted application
    /// creates an active instance under the next id.
    pub fn apply_prepared_with_executor<Context, Executor: EffectExecutor<Context, Tags, Payload>>(
        &mut self,
        prepared: PreparedEffectApplication<'_, Tags, Payload>,
        context: &mut Context,
        executor: &mut Executor,
    ) -> (result: Result<EffectApplyOutcome, Executor::Error>)
        requires
            old(self).wf(),
            old(self).next_id_raw() < u64::MAX,
            prepared.decision is Accept ==> (prepared.period matches Some(period) ==> period.units
                > 0 && prepared.duration is Some),
        ensures
            final(self).wf(),
            prepared.decision is Reject || prepared.kind != EffectKind::Instant ==> *final(context) == *old(context),
            application_applied(
                old(self).effects(),
                old(self).next_id_raw(),
                final(self).effects(),
                final(self).next_id_raw(),
                old(executor).emitted(),
                final(executor).emitted(),
                old(executor).executed(),
                final(executor).executed(),
                prepared.definition_key@,
                prepared.kind,
                prepared.duration,
                prepared.period,
                prepared_input(prepared),
                old(executor).executes_every_effect(),
                outcome_of(result),
            ),
            result matches Err(error) ==> execution_answered::<Context, Tags, Payload, Executor>(
                instant_execution(prepared.definition_key@, prepared_input(prepared)),
                Err(error),
            ),
            result == Ok::<EffectApplyOutcome, Executor::Error>(EffectApplyOutcome::ExecutedInstant)
                ==> execution_succeeded::<Context, Tags, Payload, Executor>(
                instant_execution(prepared.definition_key@, prepared_input(prepared)),
            ),
    {
        let ghost original = prepared;
        let PreparedEffectApplication {
            definition_key,
            kind,
            duration,
            period,
            source_id,
            target_id,
            tags,
            payload,
            decision,
        } = prepared;
        let application = EffectApplicationView {
            definition_key: Some(definition_key),
            source_id,
            target_id,
            tags: &tags,
            payload: &payload,
        };
        match decision {
            EffectApplicationDecision::Reject { reason } => {
                executor.emit_effect_lifecycle(
                    EffectLifecycleEventView::ApplicationRejected(
                        EffectApplicationRejectionView { application, reason: reason.as_str() },
                    ),
                );
                Ok(EffectApplyOutcome::Rejected)
            },
            EffectApplicationDecision::Accept => {
                executor.emit_effect_lifecycle(
                    EffectLifecycleEventView::ApplicationAccepted(application),
                );
                if kind == EffectKind::Instant {
                    let execution = EffectExecutionView {
                        active_effect_id: None,
                        definition_key: Some(definition_key),
                        source_id,
                        target_id,
                        tags: &tags,
                        payload: &payload,
                        elapsed_units: None,
                    };
                    let answer = executor.execute_effect(context, execution);
                    match answer {
                        Ok(()) => {},
                        Err(error) => return Err(error),
                    }
                    assert(execution_succeeded::<Context, Tags, Payload, Executor>(execution_view_fact(execution)));
                    executor.emit_effect_lifecycle(EffectLifecycleEventView::Executed(execution));
                    return Ok(EffectApplyOutcome::ExecutedInstant);
                }
                let id = self.next_id;
                self.next_id = ActiveEffectId::new(self.next_id.get() + 1);
                let effect = EffectInstance {
                    id,
                    definition_key: Some(definition_key.to_owned()),
                    source_id,
                    target_id,
                    remaining_units: match duration {
                        Some(d) => Some(d.units),
                        None => None,
                    },
                    period,
                    period_elapsed_units: 0,
                    tags,
                    payload,
                };
                proof {
                    if has_key(self.effects@, id.raw()) {
                        let i = choose|i: int|
                            0 <= i < self.effects@.len() && (#[trigger] self.effects@[i]).record_key()
                                == id.raw();
                        assert(self.effects@[i].id.raw() < id.raw());
                    }
                }
                self.effects.push(effect);
                proof {
                    assert forall|i: int| 0 <= i < self.effects@.len() implies {
                        &&& (#[trigger] self.effects@[i]).id.raw() != 0
                        &&& self.effects@[i].id.raw() < self.next_id.raw()
                        &&& self.effects@[i].period matches Some(period) ==> period.units > 0
                        &&& counters_fit(self.effects@[i])
                    } by {
                        if i < old(self).effects@.len() {
                            assert(self.effects@[i] == old(self).effects@[i]);
                        }
                    }
                }
                assert(self.effects@.drop_last() =~= old(self).effects@);
                let effects = self.effects.as_slice();
                let created = &effects[effects.len() - 1];
                executor.emit_effect_lifecycle(
                    EffectLifecycleEventView::ActiveCreated(EffectInstanceView::from_instance(created)),
                );
                Ok(EffectApplyOutcome::ActiveCreated(id))
            },
        }
    }
}

impl<Tags, Payload> EffectPipeline<Tags, Payload> {
    /// Advances the effect at `index` by `elapsed_units`: counts down its remaining units, runs
    /// its completed periods through `executor`, and removes it once exhausted. Returns whether
    /// it expired.
    fn advance_one<Context, Executor: EffectExecutor<Context, Tags, Payload>>(
        &mut self,
        index: usize,
        elapsed_units: ClockUnits,
        context: &mut Context,
        executor: &mut Executor,
    ) -> (result: Result<bool, Executor::Error>)
        requires
            old(self).wf(),
            index < old(self).effects().len(),
        ensures
            final(self).wf(),
            final(self).next_id_raw() == old(self).next_id_raw(),
            final(executor).executes_every_effect() == old(executor).executes_every_effect(),
            old(executor).executes_every_effect() ==> result is Ok,
            ({
                let effect = old(self).effects()[index as int];
                let effects = old(self).effects();
                &&& result matches Err(error) ==> execution_answered::<Context, Tags, Payload, Executor>(
                    periodic_execution(effect),
                    Err(error),
                )
                &&& result is Err ==> effect.period is Some && exists|runs: nat|
                    runs < periodic_runs(effect, elapsed_units) && final(self).effects() == effects.update(
                        index as int,
                        interrupted_instance(effect, elapsed_units, counter_after_runs(effect, elapsed_units, runs)),
                    ) && final(executor).emitted() == old(executor).emitted() + #[trigger] interrupted_facts(
                        effect,
                        elapsed_units,
                        runs,
                    ) && final(executor).executed() == old(executor).executed() + interrupted_records(
                        effect,
                        elapsed_units,
                        old(executor).emitted().len(),
                        runs,
                    )
                &&& result matches Ok(expired) ==> {
                    &&& expired == expires_within(effect, elapsed_units)
                    &&& final(self).effects() == (if expired {
                        effects.take(index as int) + effects.skip(index + 1)
                    } else {
                        effects.take(index as int).push(advanced_instance(effect, elapsed_units))
                            + effects.skip(index + 1)
                    })
                    &&& final(executor).emitted() == old(executor).emitted() + advance_facts(
                        effect,
                        elapsed_units,
                    )
                    &&& final(executor).executed() == old(executor).executed() + periodic_records(
                        effect,
                        old(executor).emitted().len() + timer_facts(effect, elapsed_units).len(),
                        periodic_runs(effect, elapsed_units),
                    )
                }
            }),
    {
        let ghost effect0 = self.effects@[index as int];
        let ghost effects0 = self.effects@;
        let ghost emitted0 = executor.emitted();
        let ghost executed0 = executor.executed();
        let previous = self.effects.as_slice()[index].remaining_units;
        let elapsed_for_effect: u64 = match previous {
            Some(remaining) => if elapsed_units < remaining {
                elapsed_units
            } else {
                remaining
            },
            None => elapsed_units,
        };
        let ghost advanced_part: Seq<EffectFact> = Seq::empty();
        match previous {
            Some(remaining) => {
                let ghost before_update = *self;
                {
                    let record = self.effects.at_mut(index);
                    record.remaining_units = Some(
                        if elapsed_units < remaining {
                            remaining - elapsed_units
                        } else {
                            0
                        },
                    );
                }
                proof {
                    self.lemma_timer_update_keeps_invariant(before_update, index as int);
                }
                let effects = self.effects.as_slice();
                executor.emit_effect_lifecycle(
                    EffectLifecycleEventView::Advanced(
                        EffectAdvanceView {
                            effect: EffectInstanceView::from_instance(&effects[index]),
                            elapsed_units: elapsed_for_effect,
                            previous_remaining_units: previous,
                        },
                    ),
                );
                proof {
                    advanced_part = seq![
                        EffectFact::Advanced {
                            effect: instance_fact(
                                interrupted_instance(effect0, elapsed_units, effect0.period_elapsed_units),
                            ),
                            elapsed_units: elapsed_for(effect0, elapsed_units),
                            previous_remaining_units: effect0.remaining_units,
                        },
                    ];
                }
            },
            None => {},
        }
        let ghost emitted1 = executor.emitted();
        assert(emitted1 == emitted0 + advanced_part);
        assert(advanced_part == timer_facts(effect0, elapsed_units));
        let period = self.effects.as_slice()[index].period;
        match period {
            Some(period) => {
                let ghost total: int = accumulated_units(effect0, elapsed_units);
                let mut accumulated: u64 = self.effects.as_slice()[index].period_elapsed_units
                    + elapsed_for_effect;
                let ghost mut runs: int = 0;
                let ghost unchanged = *self;
                assert(effect0.period == Some(period));
                assert(counters_fit(effect0));
                while accumulated >= period.units
                    invariant
                        self.wf(),
                        *self == unchanged,
                        index < self.effects@.len(),
                        self.effects@[index as int].id == effect0.id,
                        self.effects@[index as int].period == Some(period),
                        effect0.period == Some(period),
                        self.next_id_raw() == old(self).next_id_raw(),
                        period.units > 0,
                        0 <= runs,
                        total == accumulated + runs * period.units,
                        accumulated <= total,
                        counters_fit(effect0),
                        total == effect0.period_elapsed_units + elapsed_for(effect0, elapsed_units),
                        self.effects@[index as int].remaining_units == remaining_after(
                            effect0.remaining_units,
                            elapsed_units,
                        ),
                        index < effects0.len(),
                        effects0 == old(self).effects(),
                        effect0 == effects0[index as int],
                        self.effects@ == effects0.update(
                            index as int,
                            interrupted_instance(effect0, elapsed_units, effect0.period_elapsed_units),
                        ),
                        executor.emitted() == emitted1 + Seq::new(
                            runs as nat,
                            |i: int| periodic_fact(effect0),
                        ),
                        emitted1 == emitted0 + timer_facts(effect0, elapsed_units),
                        emitted0 == old(executor).emitted(),
                        executor.executed() == executed0 + periodic_records(effect0, emitted1.len(), runs as nat),
                        executed0 == old(executor).executed(),
                        executor.executes_every_effect() == old(executor).executes_every_effect(),
                    decreases accumulated,
                {
                    let effects = self.effects.as_slice();
                    let effect = &effects[index];
                    let execution = EffectExecutionView {
                        active_effect_id: Some(effect.id),
                        definition_key: as_key_ref(&effect.definition_key),
                        source_id: effect.source_id,
                        target_id: effect.target_id,
                        tags: &effect.tags,
                        payload: &effect.payload,
                        elapsed_units: Some(period.units),
                    };
                    assert(execution_view_fact(execution) == periodic_execution(effect0));
                    let ghost executed_before = executor.executed();
                    match executor.execute_effect(context, execution) {
                        Ok(()) => {},
                        Err(error) => {
                            let ghost before_update = *self;
                            {
                                let record = self.effects.at_mut(index);
                                record.period_elapsed_units = accumulated;
                            }
                            proof {
                                self.lemma_timer_update_keeps_invariant(before_update, index as int);
                                lemma_runs_before_total(total, period.units as int, runs, accumulated as int);
                                assert(accumulated == counter_after_runs(effect0, elapsed_units, runs as nat));
                                assert(self.effects@ =~= effects0.update(
                                    index as int,
                                    interrupted_instance(effect0, elapsed_units, counter_after_runs(effect0, elapsed_units, runs as nat)),
                                ));
                                assert(executor.emitted() =~= emitted0 + interrupted_facts(effect0, elapsed_units, runs as nat));
                                assert((runs as nat) < periodic_runs(effect0, elapsed_units));
                                assert(executor.executed() =~= executed0 + interrupted_records(
                                    effect0,
                                    elapsed_units,
                                    emitted0.len(),
                                    runs as nat,
                                ));
                            }
                            return Err(error);
                        },
                    }
                    executor.emit_effect_lifecycle(EffectLifecycleEventView::PeriodicExecuted(execution));
                    proof {
                        assert(Seq::new((runs + 1) as nat, |i: int| periodic_fact(effect0)) =~= Seq::new(
                            runs as nat,
                            |i: int| periodic_fact(effect0),
                        ).push(periodic_fact(effect0)));
                        assert(executor.executed() =~= executed0 + periodic_records(
                            effect0,
                            emitted1.len(),
                            (runs + 1) as nat,
                        ));
                        assert((runs + 1) * period.units == runs * period.units + period.units)
                            by (nonlinear_arith);
                        runs = runs + 1;
                    }
                    accumulated = accumulated - period.units;
                }
                proof {
                    lemma_fundamental_div_mod_converse_div(total, period.units as int, runs, accumulated as int);
                    lemma_fundamental_div_mod_converse_mod(total, period.units as int, runs, accumulated as int);
                    assert(runs == periodic_runs(effect0, elapsed_units));
                }
                let ghost before_update = *self;
                {
                    let record = self.effects.at_mut(index);
                    record.period_elapsed_units = accumulated;
                }
                proof {
                    self.lemma_timer_update_keeps_invariant(before_update, index as int);
                }
            },
            None => {},
        }
        let ghost emitted2 = executor.emitted();
        assert(emitted2 == emitted1 + Seq::new(
            periodic_runs(effect0, elapsed_units),
            |i: int| periodic_fact(effect0),
        ));
        assert(executor.executed() =~= executed0 + periodic_records(
            effect0,
            emitted0.len() + timer_facts(effect0, elapsed_units).len(),
            periodic_runs(effect0, elapsed_units),
        ));
        assert(self.effects@ == effects0.update(index as int, advanced_instance(effect0, elapsed_units)));
        let expired = match previous {
            Some(remaining) => elapsed_units >= remaining,
            None => false,
        };
        if expired {
            let ghost before_removal = *self;
            let removed = self.effects.remove_at(index);
            proof {
                self.lemma_removal_keeps_invariant(before_removal, index as int);
            }
            executor.emit_effect_lifecycle(
                EffectLifecycleEventView::Expired(EffectInstanceView::from_instance(&removed)),
            );
            proof {
                assert(self.effects@ =~= effects0.take(index as int) + effects0.skip(index + 1));
                assert(executor.emitted() =~= emitted0 + advance_facts(effect0, elapsed_units));
            }
            Ok(true)
        } else {
            proof {
                assert(self.effects@ =~= effects0.take(index as int).push(
                    advanced_instance(effect0, elapsed_units),
                ) + effects0.skip(index + 1));
                assert(executor.emitted() =~= emitted0 + advance_facts(effect0, elapsed_units));
            }
            Ok(false)
        }
    }
}

impl<Tags, Payload> EffectPipeline<Tags, Payload> {
    /// Advances every active effect by `elapsed_units`, in application order.
    ///
    /// Timed effects count down and report the advance; periodic effects run one execution per
    /// completed period; exhausted effects expire and leave the pipeline. Zero elapsed units
    /// change nothing. An execution failure stops the advance and is returned.
    pub fn advance_with_executor<Context, Executor: EffectExecutor<Context, Tags, Payload>>(
        &mut self,
        elapsed_units: ClockUnits,
        context: &mut Context,
        executor: &mut Executor,
    ) -> (result: Result<(), Executor::Error>)
        requires
            old(self).wf(),
        ensures
            final(self).wf(),
            final(self).next_id_raw() == old(self).next_id_raw(),
            elapsed_units == 0 ==> result is Ok && final(self).effects() == old(self).effects()
                && final(executor).emitted() == old(executor).emitted() && final(executor).executed()
                == old(executor).executed(),
            elapsed_units > 0 && result is Ok ==> final(self).effects() == advanced_effects(
                old(self).effects(),
                elapsed_units,
            ) && final(executor).emitted() == old(executor).emitted() + advanced_facts(
                old(self).effects(),
                elapsed_units,
            ) && final(executor).executed() == old(executor).executed() + advanced_executions(
                old(self).effects(),
                elapsed_units,
                old(executor).emitted().len(),
            ),
            old(executor).executes_every_effect() ==> result is Ok,
            result matches Err(error) ==> exists|k: int|
                0 <= k < old(self).effects().len() && execution_answered::<Context, Tags, Payload, Executor>(
                    periodic_execution(#[trigger] old(self).effects()[k]),
                    Err(error),
                ),
            result is Err ==> interrupted_advance(
                old(self).effects(),
                final(self).effects(),
                elapsed_units,
                old(executor).emitted(),
                final(executor).emitted(),
                old(executor).executed(),
                final(executor).executed(),
            ),
    {
        if elapsed_units == 0 {
            return Ok(());
        }
        let ghost original = self.effects@;
        let ghost emitted0 = executor.emitted();
        let ghost executed0 = executor.executed();
        let mut index: usize = 0;
        let ghost mut k: int = 0;
        while index < self.effects.len()
            invariant
                self.wf(),
                self.next_id_raw() == old(self).next_id_raw(),
                original == old(self).effects(),
                emitted0 == old(executor).emitted(),
                executed0 == old(executor).executed(),
                executor.executed() == executed0 + advanced_executions(original.take(k), elapsed_units, emitted0.len()),
                0 <= k <= original.len(),
                elapsed_units > 0,
                self.effects@ == advanced_effects(original.take(k), elapsed_units) + original.skip(k),
                index == advanced_effects(original.take(k), elapsed_units).len(),
                executor.emitted() == emitted0 + advanced_facts(original.take(k), elapsed_units),
                executor.executes_every_effect() == old(executor).executes_every_effect(),
            decreases original.len() - k,
        {
            let ghost done = advanced_effects(original.take(k), elapsed_units);
            let ghost facts = executor.emitted();
            let ghost executed = executor.executed();
            let ghost effects_before = self.effects@;
            proof {
                assert(original.take(k + 1).drop_last() == original.take(k));
                assert(self.effects@[index as int] == original[k]);
                assert(original.take(k + 1).last() == original[k]);
                assert(self.effects@.take(index as int) == done);
                assert(self.effects@.skip(index + 1) == original.skip(k + 1));
            }
            match self.advance_one(index, elapsed_units, context, executor) {
                Ok(expired) => {
                    if !expired {
                        index = index + 1;
                    }
                    proof {
                        assert(executor.emitted() == emitted0 + advanced_facts(
                            original.take(k + 1),
                            elapsed_units,
                        ));
                        assert(executor.executed() =~= executed0 + advanced_executions(
                            original.take(k + 1),
                            elapsed_units,
                            emitted0.len(),
                        ));
                        k = k + 1;
                    }
                },
                Err(error) => {
                    proof {
                        let runs = choose|runs: nat|
                            runs < periodic_runs(original[k], elapsed_units) && self.effects@ == effects_before.update(
                                index as int,
                                interrupted_instance(
                                    original[k],
                                    elapsed_units,
                                    counter_after_runs(original[k], elapsed_units, runs),
                                ),
                            ) && executor.emitted() == facts + #[trigger] interrupted_facts(
                                original[k],
                                elapsed_units,
                                runs,
                            ) && executor.executed() == executed + interrupted_records(
                                original[k],
                                elapsed_units,
                                facts.len(),
                                runs,
                            );
                        assert(executor.executed() =~= executed0 + advanced_executions(
                            original.take(k),
                            elapsed_units,
                            emitted0.len(),
                        ) + interrupted_records(
                            original[k],
                            elapsed_units,
                            emitted0.len() + advanced_facts(original.take(k), elapsed_units).len(),
                            runs,
                        ));
                        assert(self.effects@ =~= advanced_effects(original.take(k), elapsed_units).push(
                            interrupted_instance(
                                original[k],
                                elapsed_units,
                                counter_after_runs(original[k], elapsed_units, runs),
                            ),
                        ) + original.skip(k + 1));
                        assert(executor.emitted() =~= emitted0 + advanced_facts(original.take(k), elapsed_units)
                            + interrupted_facts(original[k], elapsed_units, runs));
                        assert(original[k].period is Some);
                        assert(runs < periodic_runs(original[k], elapsed_units));
                        assert(interrupted_advance(original, self.effects@, elapsed_units, emitted0, executor.emitted(), executed0, executor.executed()));
                        assert(old(self).effects()[k] == original[k]);
                    }
                    return Err(error);
                },
            }
        }
        proof {
            assert(original.take(k) + original.skip(k) == original);
            if k < original.len() {
                assert(self.effects@.len() == index + (original.len() - k));
            }
            assert(k == original.len());
            assert(original.take(k) == original);
        }
        Ok(())
    }
}

impl<Tags: TagCollection, Payload> EffectPipeline<Tags, Payload> {
    /// Whether some active effect on `target_id` carries `tag`.
    pub fn has_tag(&self, target_id: ObjectId, tag: &Tags::Tag) -> (present: bool)
        ensures
            Tags::obeys_tag_model() ==> present == exists|i: int|
                0 <= i < self.effects().len() && (#[trigger] self.effects()[i]).target_id == target_id
                    && self.effects()[i].tags.tag_model(*tag),
    {
        broadcast use lemma_object_id_raw_injective;
        let effects = self.effects.as_slice();
        let mut index: usize = 0;
        while index < effects.len()
            invariant
                effects@ == self.effects(),
                0 <= index <= effects@.len(),
                Tags::obeys_tag_model() ==> forall|k: int|
                    0 <= k < index ==> !((#[trigger] effects@[k]).target_id == target_id
                        && effects@[k].tags.tag_model(*tag)),
            decreases effects@.len() - index,
        {
            let same_target = effects[index].target_id.get() == target_id.get();
            let tagged = effects[index].has_tag(tag);
            if same_target && tagged {
                proof {
                    lemma_object_id_raw_injective(effects@[index as int].target_id, target_id);
                }
                assert(self.effects()[index as int] == effects@[index as int]);
                return true;
            }
            index = index + 1;
        }
        false
    }
}

impl EffectApplicationError {
    /// The human-readable description of this error.
    pub open spec fn message_view(&self) -> Seq<char> {
        match *self {
            EffectApplicationError::Definition(error) => error.message_view(),
            EffectApplicationError::MissingSource => "effect application requires a source"@,
            EffectApplicationError::InvalidSource { .. } => "invalid effect source"@,
            EffectApplicationError::InvalidTarget { .. } => "invalid effect target"@,
        }
    }

    /// Describes this error for people.
    pub fn message(&self) -> (text: String)
        ensures
            text@ == self.message_view(),
    {
        match self {
            EffectApplicationError::Definition(error) => { let inner = error.message(); inner },
            EffectApplicationError::MissingSource => text1("effect application requires a source"),
            EffectApplicationError::InvalidSource { .. } => text1("invalid effect source"),
            EffectApplicationError::InvalidTarget { .. } => text1("invalid effect target"),
        }
    }
}

} // verus!
