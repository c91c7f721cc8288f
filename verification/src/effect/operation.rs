//! Effect application, tick, and removal command builders.
use vstd::prelude::*;
use std::convert::Infallible;

use super::application::{
    DiscardEffectLifecycleEvents, EffectApplicationDecision, EffectApplicationDraft, EffectApplicationInput,
    EffectExecutor, EffectInitializer, EffectLifecycleSink, EffectSourcePolicy, NoEffectExecutor,
    NoopEffectInitializer,
};
use super::definition::{
    clock_shape, defines_effect, effect_definition_for, EffectDefinition, EffectDefinitionError,
    EffectDefinitionRegistryError, EffectDefinitions,
};
use super::events::{EffectFact, EffectInstance, ExecutionRecord};
use super::ids::ActiveEffectId;
use super::pipeline::{
    advanced_effects, advanced_executions, advanced_facts, execution_answered, execution_succeeded, instant_execution,
    interrupted_advance, periodic_execution, application_applied, kept_effects,
    reference_verdict, removed_facts, selected_effects, validate_application_references,
    EffectApplicationError, EffectApplyOutcome, EffectObjectRemovalPolicy, EffectPipeline,
    PreparedEffectApplication,
};
use crate::ability::indexed_store::{has_key, key_position};
use crate::clock::ClockUnits;
use crate::identity::{ObjectId, ObjectStore};
use crate::text::{display_text, text2, text_extends};

verus! {

/// Where an application command takes its definition from.
enum EffectApplySource<'input, Schema> {
    Definition(&'input EffectDefinition<Schema>),
    Registered { definitions: &'input EffectDefinitions<Schema>, key: &'input str },
}

/// The live-object check an application command runs before applying.
struct EffectApplicationReferenceCheck<'input> {
    objects: &'input ObjectStore,
    source_policy: EffectSourcePolicy,
}

/// Effect application command builder.
pub struct EffectApply<'input, Schema, Tags, Payload, Initializer = NoopEffectInitializer> {
    source: EffectApplySource<'input, Schema>,
    input: EffectApplicationInput<Tags, Payload>,
    reference_check: Option<EffectApplicationReferenceCheck<'input>>,
    initializer: Initializer,
}

/// Effect application command failures.
#[derive(Clone, Debug, PartialEq, Eq)]
pub enum EffectApplyError<InitializeError = Infallible, ExecutionError = Infallible> {
    Definition(EffectDefinitionError),
    RegisteredDefinition(EffectDefinitionRegistryError),
    Application(EffectApplicationError),
    Initialize(InitializeError),
    Execution(ExecutionError),
}

/// The application outcome a command result reports, `None` for a failure.
pub open spec fn apply_outcome_of<I, E>(result: Result<EffectApplyOutcome, EffectApplyError<I, E>>) -> Option<
    EffectApplyOutcome,
> {
    match result {
        Ok(outcome) => Some(outcome),
        Err(_) => None,
    }
}

/// The pipeline's effects and id cursor are as before.
pub open spec fn pipeline_untouched<Tags, Payload>(
    after: EffectPipeline<Tags, Payload>,
    before: EffectPipeline<Tags, Payload>,
) -> bool {
    after.effects() == before.effects() && after.next_id_raw() == before.next_id_raw()
}

impl<'input, Schema, Tags, Payload> EffectApply<'input, Schema, Tags, Payload, NoopEffectInitializer> {
    /// Applies `definition` directly; it is validated when the command runs.
    pub fn definition(
        definition: &'input EffectDefinition<Schema>,
        input: EffectApplicationInput<Tags, Payload>,
    ) -> (command: Self)
        ensures
            command.application() == input,
            command.direct_definition() == Some(*definition),
            command.registry() is None,
            command.reference_check() is None,
    {
        EffectApply {
            source: EffectApplySource::Definition(definition),
            input,
            reference_check: None,
            initializer: NoopEffectInitializer,
        }
    }

    /// Applies the definition registered under `key`.
    pub fn registered(
        definitions: &'input EffectDefinitions<Schema>,
        key: &'input str,
        input: EffectApplicationInput<Tags, Payload>,
    ) -> (command: Self)
        ensures
            command.application() == input,
            command.direct_definition() is None,
            command.registry() == Some(definitions@),
            command.registry_key() == key@,
            command.reference_check() is None,
    {
        EffectApply {
            source: EffectApplySource::Registered { definitions, key },
            input,
            reference_check: None,
            initializer: NoopEffectInitializer,
        }
    }
}

impl<'input, Schema, Tags, Payload, Initializer> EffectApply<
    'input,
    Schema,
    Tags,
    Payload,
    Initializer,
> {
    /// The application this command submits.
    pub closed spec fn application(&self) -> EffectApplicationInput<Tags, Payload> {
        self.input
    }

    /// The definition given directly, if any.
    pub closed spec fn direct_definition(&self) -> Option<EffectDefinition<Schema>> {
        match self.source {
            EffectApplySource::Definition(d) => Some(*d),
            EffectApplySource::Registered { .. } => None,
        }
    }

    /// The registry the definition is looked up in, if any.
    pub closed spec fn registry(&self) -> Option<Seq<EffectDefinition<Schema>>> {
        match self.source {
            EffectApplySource::Definition(_) => None,
            EffectApplySource::Registered { definitions, .. } => Some(definitions@),
        }
    }

    /// The key the definition is looked up under (meaningful when `registry` is `Some`).
    pub closed spec fn registry_key(&self) -> Seq<char> {
        match self.source {
            EffectApplySource::Definition(_) => Seq::empty(),
            EffectApplySource::Registered { key, .. } => key@,
        }
    }

    /// The live objects and source policy the references are checked against, if checked.
    pub closed spec fn reference_check(&self) -> Option<(Seq<ObjectId>, EffectSourcePolicy)> {
        match self.reference_check {
            Some(check) => Some((check.objects@, check.source_policy)),
            None => None,
        }
    }

    /// The caller-owned initializer.
    pub closed spec fn initializer(&self) -> Initializer {
        self.initializer
    }

    /// The verdict of the configured reference check (`Ok` when none is configured).
    pub open spec fn reference_outcome(&self) -> Result<(), EffectApplicationError> {
        match self.reference_check() {
            Some(check) => reference_verdict(check.0, self.application(), check.1),
            None => Ok(()),
        }
    }

    /// The definition the command applies once it resolves.
    pub open spec fn resolved_definition(&self) -> EffectDefinition<Schema> {
        match self.direct_definition() {
            Some(d) => d,
            None => effect_definition_for(self.registry()->0, self.registry_key()),
        }
    }

    /// References pass, the direct definition validates, or the key is registered.
    pub open spec fn resolves(&self) -> bool {
        &&& self.reference_outcome() is Ok
        &&& self.direct_definition() matches Some(d) ==> d.validation() is Ok
        &&& self.registry() is Some ==> defines_effect(self.registry()->0, self.registry_key())
    }

    /// Checks source and target against the live objects of `objects` before applying.
    pub fn checked(self, objects: &'input ObjectStore, source_policy: EffectSourcePolicy) -> (command:
        Self)
        ensures
            command.application() == self.application(),
            command.direct_definition() == self.direct_definition(),
            command.registry() == self.registry(),
            command.registry_key() == self.registry_key(),
            command.reference_check() == Some((objects@, source_policy)),
            command.initializer() == self.initializer(),
    {
        EffectApply {
            source: self.source,
            input: self.input,
            reference_check: Some(EffectApplicationReferenceCheck { objects, source_policy }),
            initializer: self.initializer,
        }
    }

    /// Replaces the initializer that prepares accepted applications.
    pub fn initialized<NextInitializer>(self, initializer: NextInitializer) -> (command: EffectApply<
        'input,
        Schema,
        Tags,
        Payload,
        NextInitializer,
    >)
        ensures
            command.application() == self.application(),
            command.direct_definition() == self.direct_definition(),
            command.registry() == self.registry(),
            command.registry_key() == self.registry_key(),
            command.reference_check() == self.reference_check(),
            command.initializer() == initializer,
    {
        EffectApply {
            source: self.source,
            input: self.input,
            reference_check: self.reference_check,
            initializer,
        }
    }

    /// Applies with no caller-owned action and no lifecycle sink.
    pub fn run(self, pipeline: &mut EffectPipeline<Tags, Payload>) -> (result: Result<
        EffectApplyOutcome,
        EffectApplyError<Initializer::Error, Infallible>,
    >) where Initializer: EffectInitializer<(), Tags, Payload>
        requires
            old(pipeline).wf(),
            old(pipeline).next_id_raw() < u64::MAX,
        ensures
            final(pipeline).wf(),
            ({
                let input = self.application();
                let definition = self.resolved_definition();
                let reference = self.reference_outcome();
                &&& reference is Err ==> result == Err::<
                    EffectApplyOutcome,
                    EffectApplyError<Initializer::Error, Infallible>,
                >(EffectApplyError::Application(reference->Err_0)) && pipeline_untouched(
                    *final(pipeline),
                    *old(pipeline),
                )
                &&& reference is Ok && self.direct_definition() is Some && definition.validation() is Err
                    ==> result == Err::<
                    EffectApplyOutcome,
                    EffectApplyError<Initializer::Error, Infallible>,
                >(EffectApplyError::Definition(definition.validation()->Err_0)) && pipeline_untouched(
                    *final(pipeline),
                    *old(pipeline),
                )
                &&& reference is Ok && self.registry() is Some && !defines_effect(
                    self.registry()->0,
                    self.registry_key(),
                ) ==> (result matches Err(
                    EffectApplyError::RegisteredDefinition(
                        EffectDefinitionRegistryError::MissingDefinition { key },
                    ),
                ) && key@ == self.registry_key()) && pipeline_untouched(*final(pipeline), *old(pipeline))
                &&& self.resolves() && input.decision is Reject ==> result == Ok::<
                    EffectApplyOutcome,
                    EffectApplyError<Initializer::Error, Infallible>,
                >(EffectApplyOutcome::Rejected) && pipeline_untouched(*final(pipeline), *old(pipeline))
                &&& self.resolves() && input.decision is Accept && self.initializer().leaves_drafts_unchanged() ==> {
                    let shape = clock_shape(definition.kind, definition.duration, definition.period, definition.key);
                    &&& shape is Err ==> result == Err::<
                        EffectApplyOutcome,
                        EffectApplyError<Initializer::Error, Infallible>,
                    >(EffectApplyError::Definition(shape->Err_0)) && pipeline_untouched(
                        *final(pipeline),
                        *old(pipeline),
                    )
                    &&& shape is Ok ==> result is Ok && exists|
                        facts_before: Seq<EffectFact>,
                        facts_after: Seq<EffectFact>,
                        executed_before: Seq<ExecutionRecord>,
                        executed_after: Seq<ExecutionRecord>,
                    |
                        application_applied(
                            old(pipeline).effects(),
                            old(pipeline).next_id_raw(),
                            final(pipeline).effects(),
                            final(pipeline).next_id_raw(),
                            facts_before,
                            facts_after,
                            executed_before,
                            executed_after,
                            definition.key@,
                            definition.kind,
                            definition.duration,
                            definition.period,
                            input,
                            true,
                            apply_outcome_of(result),
                        )
                }
                &&& self.resolves() && input.decision is Accept ==> exists|
                    init: &mut Initializer,
                    ctx: &mut (),
                    draft: &mut EffectApplicationDraft<'_, Tags, Payload>,
                    outcome: Result<(), Initializer::Error>,
                |
                    {
                        &&& #[trigger] call_ensures(Initializer::initialize, (init, ctx, draft), outcome)
                        &&& mut_ref_current(init) == self.initializer()
                        &&& initial_draft(mut_ref_current(draft), definition, input)
                        &&& outcome matches Err(error) ==> result == Err::<
                            EffectApplyOutcome,
                            EffectApplyError<Initializer::Error, Infallible>,
                        >(EffectApplyError::Initialize(error)) && pipeline_untouched(*final(pipeline), *old(pipeline))
                        &&& outcome is Ok ==> {
                            let left = mut_ref_future(draft);
                            let shape = clock_shape(definition.kind, left.duration, left.period, definition.key);
                            &&& shape is Err ==> result == Err::<
                                EffectApplyOutcome,
                                EffectApplyError<Initializer::Error, Infallible>,
                            >(EffectApplyError::Definition(shape->Err_0)) && pipeline_untouched(
                                *final(pipeline),
                                *old(pipeline),
                            )
                            &&& shape is Ok ==> result is Ok && exists|
                                facts_before: Seq<EffectFact>,
                                facts_after: Seq<EffectFact>,
                                executed_before: Seq<ExecutionRecord>,
                                executed_after: Seq<ExecutionRecord>,
                            |
                                #[trigger] application_applied(
                                    old(pipeline).effects(),
                                    old(pipeline).next_id_raw(),
                                    final(pipeline).effects(),
                                    final(pipeline).next_id_raw(),
                                    facts_before,
                                    facts_after,
                                    executed_before,
                                    executed_after,
                                    definition.key@,
                                    definition.kind,
                                    left.duration,
                                    left.period,
                                    EffectApplicationInput { payload: left.payload, ..input },
                                    true,
                                    apply_outcome_of(result),
                                )
                        }
                    }
            }),
    {
        let mut context = ();
        let mut executor = NoEffectExecutor::new();
        self.run_with_executor(pipeline, &mut context, &mut executor)
    }

    /// Applies through a caller-owned executor that runs instant executions and receives facts.
    ///
    /// Order: the reference check (when configured), then the definition (validated when given
    /// directly, looked up when registered), then, for accepted applications, the initializer
    /// and a check of the clocks it leaves, then the pipeline.
    #[verifier::rlimit(40)]
    pub fn run_with_executor<Context, Executor: EffectExecutor<Context, Tags, Payload>>(
        self,
        pipeline: &mut EffectPipeline<Tags, Payload>,
        context: &mut Context,
        executor: &mut Executor,
    ) -> (result: Result<EffectApplyOutcome, EffectApplyError<Initializer::Error, Executor::Error>>) where
        Initializer: EffectInitializer<Context, Tags, Payload>,

        requires
            old(pipeline).wf(),
            old(pipeline).next_id_raw() < u64::MAX,
        ensures
            final(pipeline).wf(),
            !(self.resolves() && self.application().decision is Accept) ==> *final(context) == *old(context),
            ({
                let input = self.application();
                let definition = self.resolved_definition();
                let reference = self.reference_outcome();
                let before = old(executor).emitted();
                let after = final(executor).emitted();
                let executed_before = old(executor).executed();
                let executed_after = final(executor).executed();
                let untouched = pipeline_untouched(*final(pipeline), *old(pipeline)) && after == before
                    && executed_after == executed_before;
                &&& reference is Err ==> result == Err::<
                    EffectApplyOutcome,
                    EffectApplyError<Initializer::Error, Executor::Error>,
                >(EffectApplyError::Application(reference->Err_0)) && untouched
                &&& reference is Ok && self.direct_definition() is Some && definition.validation() is Err
                    ==> result == Err::<
                    EffectApplyOutcome,
                    EffectApplyError<Initializer::Error, Executor::Error>,
                >(EffectApplyError::Definition(definition.validation()->Err_0)) && untouched
                &&& reference is Ok && self.registry() is Some && !defines_effect(
                    self.registry()->0,
                    self.registry_key(),
                ) ==> (result matches Err(
                    EffectApplyError::RegisteredDefinition(
                        EffectDefinitionRegistryError::MissingDefinition { key },
                    ),
                ) && key@ == self.registry_key()) && untouched
                &&& self.resolves() && input.decision is Reject ==> application_applied(
                    old(pipeline).effects(),
                    old(pipeline).next_id_raw(),
                    final(pipeline).effects(),
                    final(pipeline).next_id_raw(),
                    before,
                    after,
                    executed_before,
                    executed_after,
                    definition.key@,
                    definition.kind,
                    definition.duration,
                    definition.period,
                    input,
                    old(executor).executes_every_effect(),
                    apply_outcome_of(result),
                ) && result is Ok
                &&& self.resolves() && input.decision is Accept && self.initializer().leaves_drafts_unchanged() ==> {
                    let shape = clock_shape(definition.kind, definition.duration, definition.period, definition.key);
                    &&& shape is Err ==> result == Err::<
                        EffectApplyOutcome,
                        EffectApplyError<Initializer::Error, Executor::Error>,
                    >(EffectApplyError::Definition(shape->Err_0)) && untouched
                    &&& shape is Ok ==> (result is Ok || result matches Err(EffectApplyError::Execution(_)))
                        && application_applied(
                        old(pipeline).effects(),
                        old(pipeline).next_id_raw(),
                        final(pipeline).effects(),
                        final(pipeline).next_id_raw(),
                        before,
                        after,
                        executed_before,
                        executed_after,
                        definition.key@,
                        definition.kind,
                        definition.duration,
                        definition.period,
                        input,
                        old(executor).executes_every_effect(),
                        apply_outcome_of(result),
                    )
                }
                &&& self.resolves() && input.decision is Accept ==> exists|
                    init: &mut Initializer,
                    ctx: &mut Context,
                    draft: &mut EffectApplicationDraft<'_, Tags, Payload>,
                    outcome: Result<(), Initializer::Error>,
                |
                    {
                        &&& #[trigger] call_ensures(Initializer::initialize, (init, ctx, draft), outcome)
                        &&& mut_ref_current(init) == self.initializer()
                        &&& mut_ref_current(ctx) == *old(context)
                        &&& initial_draft(mut_ref_current(draft), definition, input)
                        &&& outcome matches Err(error) ==> result == Err::<
                            EffectApplyOutcome,
                            EffectApplyError<Initializer::Error, Executor::Error>,
                        >(EffectApplyError::Initialize(error)) && untouched
                        &&& outcome is Ok ==> {
                            let left = mut_ref_future(draft);
                            let shape = clock_shape(definition.kind, left.duration, left.period, definition.key);
                            &&& shape is Err ==> result == Err::<
                                EffectApplyOutcome,
                                EffectApplyError<Initializer::Error, Executor::Error>,
                            >(EffectApplyError::Definition(shape->Err_0)) && untouched
                            &&& shape is Ok ==> (result is Ok || result matches Err(EffectApplyError::Execution(_)))
                                && application_applied(
                                old(pipeline).effects(),
                                old(pipeline).next_id_raw(),
                                final(pipeline).effects(),
                                final(pipeline).next_id_raw(),
                                before,
                                after,
                                executed_before,
                                executed_after,
                                definition.key@,
                                definition.kind,
                                left.duration,
                                left.period,
                                EffectApplicationInput { payload: left.payload, ..input },
                                old(executor).executes_every_effect(),
                                apply_outcome_of(result),
                            )
                            &&& result matches Err(EffectApplyError::Execution(error)) ==> execution_answered::<
                                Context,
                                Tags,
                                Payload,
                                Executor,
                            >(
                                instant_execution(definition.key@, EffectApplicationInput { payload: left.payload, ..input }),
                                Err(error),
                            )
                            &&& result matches Ok(EffectApplyOutcome::ExecutedInstant) ==> execution_succeeded::<
                                Context,
                                Tags,
                                Payload,
                                Executor,
                            >(instant_execution(definition.key@, EffectApplicationInput { payload: left.payload, ..input }))
                        }
                    }
            }),
    {
        let definition = match self.resolve() {
            Ok(definition) => definition,
            Err(error) => return Err(error),
        };
        let ghost command = self;
        let EffectApply { input, mut initializer, .. } = self;
        let mut prepared = PreparedEffectApplication::new(definition, input);
        let accepted = match &prepared.decision {
            EffectApplicationDecision::Accept => true,
            EffectApplicationDecision::Reject { .. } => false,
        };
        if accepted {
            prepared = match prepared.initialize(context, &mut initializer) {
                Ok(prepared) => prepared,
                Err(error) => return Err(EffectApplyError::Initialize(error)),
            };
        }
        let ghost applied = prepared;
        let result = apply_initialized(pipeline, definition, prepared, context, executor);
        proof {
            let input0 = command.application();
            assert(super::pipeline::prepared_input(applied) == (EffectApplicationInput {
                payload: applied.payload,
                ..input0
            }));
        }
        result
    }

    /// Runs the configured reference check and resolves the definition.
    fn resolve<I, E>(&self) -> (result: Result<&'input EffectDefinition<Schema>, EffectApplyError<I, E>>)
        ensures
            ({
                let definition = self.resolved_definition();
                let reference = self.reference_outcome();
                &&& reference is Err ==> result == Err::<
                    &'input EffectDefinition<Schema>,
                    EffectApplyError<I, E>,
                >(EffectApplyError::Application(reference->Err_0))
                &&& reference is Ok && self.direct_definition() is Some && definition.validation() is Err
                    ==> result == Err::<&'input EffectDefinition<Schema>, EffectApplyError<I, E>>(
                    EffectApplyError::Definition(definition.validation()->Err_0),
                )
                &&& reference is Ok && self.registry() is Some && !defines_effect(
                    self.registry()->0,
                    self.registry_key(),
                ) ==> (result matches Err(
                    EffectApplyError::RegisteredDefinition(
                        EffectDefinitionRegistryError::MissingDefinition { key },
                    ),
                ) && key@ == self.registry_key())
                &&& self.resolves() ==> (result is Ok && *result->Ok_0 == definition)
                &&& !self.resolves() ==> result is Err
            }),
    {
        match &self.reference_check {
            Some(check) => {
                match validate_application_references(check.objects, &self.input, check.source_policy) {
                    Ok(()) => {},
                    Err(error) => return Err(EffectApplyError::Application(error)),
                }
            },
            None => {},
        }
        match self.source {
            EffectApplySource::Definition(definition) => {
                match definition.validate() {
                    Ok(()) => {},
                    Err(error) => return Err(EffectApplyError::Definition(error)),
                }
                Ok(definition)
            },
            EffectApplySource::Registered { definitions, key } => match definitions.require(key) {
                Ok(definition) => Ok(definition),
                Err(error) => Err(EffectApplyError::RegisteredDefinition(error)),
            },
        }
    }
}

/// `draft` is the draft an initializer of `input` under `definition` starts from: the
/// definition's key and clocks, and the input's references, tags, and payload.
pub open spec fn initial_draft<Schema, Tags, Payload>(
    draft: EffectApplicationDraft<'_, Tags, Payload>,
    definition: EffectDefinition<Schema>,
    input: EffectApplicationInput<Tags, Payload>,
) -> bool {
    &&& draft.definition_key@ == definition.key@
    &&& draft.source_id == input.source_id
    &&& draft.target_id == input.target_id
    &&& *draft.tags == input.tags
    &&& draft.payload == input.payload
    &&& draft.duration == definition.duration
    &&& draft.period == definition.period
}

/// Applies an application that `definition` prepared and its initializer (if any) left as
/// `prepared`.
///
/// A rejection is applied as it stands. An accepted application's clocks are checked against
/// the definition's kind first; clocks of the wrong shape are refused with the definition
/// error and change nothing.
pub fn apply_initialized<Schema, Tags, Payload, Context, InitializeError, Executor: EffectExecutor<
    Context,
    Tags,
    Payload,
>>(
    pipeline: &mut EffectPipeline<Tags, Payload>,
    definition: &EffectDefinition<Schema>,
    prepared: PreparedEffectApplication<'_, Tags, Payload>,
    context: &mut Context,
    executor: &mut Executor,
) -> (result: Result<EffectApplyOutcome, EffectApplyError<InitializeError, Executor::Error>>)
    requires
        old(pipeline).wf(),
        old(pipeline).next_id_raw() < u64::MAX,
        prepared.kind == definition.kind,
    ensures
        final(pipeline).wf(),
        prepared.decision is Reject ==> *final(context) == *old(context),
        ({
            let shape = clock_shape(definition.kind, prepared.duration, prepared.period, definition.key);
            let applied = application_applied(
                old(pipeline).effects(),
                old(pipeline).next_id_raw(),
                final(pipeline).effects(),
                final(pipeline).next_id_raw(),
                old(executor).emitted(),
                final(executor).emitted(),
                old(executor).executed(),
                final(executor).executed(),
                prepared.definition_key@,
                prepared.kind,
                prepared.duration,
                prepared.period,
                super::pipeline::prepared_input(prepared),
                old(executor).executes_every_effect(),
                apply_outcome_of(result),
            );
            &&& prepared.decision is Reject ==> result is Ok && applied
            &&& prepared.decision is Accept && shape is Err ==> result == Err::<
                EffectApplyOutcome,
                EffectApplyError<InitializeError, Executor::Error>,
            >(EffectApplyError::Definition(shape->Err_0)) && pipeline_untouched(*final(pipeline), *old(pipeline))
                && final(executor).emitted() == old(executor).emitted() && final(executor).executed()
                == old(executor).executed()
            &&& prepared.decision is Accept && shape is Ok ==> (result is Ok || result matches Err(
                EffectApplyError::Execution(_),
            )) && applied
            &&& result matches Err(EffectApplyError::Execution(error)) ==> execution_answered::<
                Context,
                Tags,
                Payload,
                Executor,
            >(instant_execution(prepared.definition_key@, super::pipeline::prepared_input(prepared)), Err(error))
            &&& result matches Ok(EffectApplyOutcome::ExecutedInstant) ==> execution_succeeded::<
                Context,
                Tags,
                Payload,
                Executor,
            >(instant_execution(prepared.definition_key@, super::pipeline::prepared_input(prepared)))
        }),
{
    let accepted = match &prepared.decision {
        EffectApplicationDecision::Accept => true,
        EffectApplicationDecision::Reject { .. } => false,
    };
    if accepted {
        match definition.validate_clock_shape(prepared.duration, prepared.period) {
            Ok(()) => {},
            Err(error) => return Err(EffectApplyError::Definition(error)),
        }
        assert(prepared.period matches Some(period) ==> period.units > 0);
    }
    match pipeline.apply_prepared_with_executor(prepared, context, executor) {
        Ok(outcome) => Ok(outcome),
        Err(error) => Err(EffectApplyError::Execution(error)),
    }
}

/// Effect ticking command builder.
#[derive(Clone, Copy, Debug, PartialEq, Eq)]
pub struct EffectTick {
    elapsed_units: ClockUnits,
}

impl EffectTick {
    /// The units the tick advances by.
    pub closed spec fn elapsed(&self) -> ClockUnits {
        self.elapsed_units
    }

    pub fn new(elapsed_units: ClockUnits) -> (tick: EffectTick)
        ensures
            tick.elapsed() == elapsed_units,
    {
        EffectTick { elapsed_units }
    }

    /// Advances every active effect with no caller-owned action.
    pub fn run<Tags, Payload>(self, pipeline: &mut EffectPipeline<Tags, Payload>)
        requires
            old(pipeline).wf(),
        ensures
            final(pipeline).wf(),
            final(pipeline).next_id_raw() == old(pipeline).next_id_raw(),
            self.elapsed() == 0 ==> final(pipeline).effects() == old(pipeline).effects(),
            self.elapsed() > 0 ==> final(pipeline).effects() == advanced_effects(
                old(pipeline).effects(),
                self.elapsed(),
            ),
    {
        let mut context = ();
        let mut executor = NoEffectExecutor::new();
        let _ = self.run_with_executor(pipeline, &mut context, &mut executor);
    }

    /// Advances every active effect through a caller-owned executor.
    pub fn run_with_executor<Context, Tags, Payload, Executor: EffectExecutor<Context, Tags, Payload>>(
        self,
        pipeline: &mut EffectPipeline<Tags, Payload>,
        context: &mut Context,
        executor: &mut Executor,
    ) -> (result: Result<(), Executor::Error>)
        requires
            old(pipeline).wf(),
        ensures
            final(pipeline).wf(),
            final(pipeline).next_id_raw() == old(pipeline).next_id_raw(),
            self.elapsed() == 0 ==> result is Ok && final(pipeline).effects() == old(pipeline).effects()
                && final(executor).emitted() == old(executor).emitted() && final(executor).executed()
                == old(executor).executed(),
            self.elapsed() > 0 && result is Ok ==> final(pipeline).effects() == advanced_effects(
                old(pipeline).effects(),
                self.elapsed(),
            ) && final(executor).emitted() == old(executor).emitted() + advanced_facts(
                old(pipeline).effects(),
                self.elapsed(),
            ) && final(executor).executed() == old(executor).executed() + advanced_executions(
                old(pipeline).effects(),
                self.elapsed(),
                old(executor).emitted().len(),
            ),
            old(executor).executes_every_effect() ==> result is Ok,
            result matches Err(error) ==> exists|k: int|
                0 <= k < old(pipeline).effects().len() && execution_answered::<Context, Tags, Payload, Executor>(
                    periodic_execution(#[trigger] old(pipeline).effects()[k]),
                    Err(error),
                ),
            result is Err ==> interrupted_advance(
                old(pipeline).effects(),
                final(pipeline).effects(),
                self.elapsed(),
                old(executor).emitted(),
                final(executor).emitted(),
                old(executor).executed(),
                final(executor).executed(),
            ),
    {
        pipeline.advance_with_executor(self.elapsed_units, context, executor)
    }
}

/// Active effect removal command builder.
#[derive(Clone, Copy, Debug, PartialEq, Eq)]
pub struct EffectRemove {
    effect_id: ActiveEffectId,
}

impl EffectRemove {
    /// The effect to remove.
    pub closed spec fn target(&self) -> ActiveEffectId {
        self.effect_id
    }

    pub fn new(effect_id: ActiveEffectId) -> (command: EffectRemove)
        ensures
            command.target() == effect_id,
    {
        EffectRemove { effect_id }
    }

    /// Removes the effect with no lifecycle sink.
    pub fn run<Tags, Payload>(self, pipeline: &mut EffectPipeline<Tags, Payload>) -> (removed: Option<
        EffectInstance<Tags, Payload>,
    >)
        requires
            old(pipeline).wf(),
        ensures
            final(pipeline).wf(),
            final(pipeline).next_id_raw() == old(pipeline).next_id_raw(),
            !has_key(final(pipeline).effects(), self.target().raw()),
            ({
                let effects = old(pipeline).effects();
                let key = self.target().raw();
                match removed {
                    Some(e) => has_key(effects, key) && e == effects[key_position(effects, key)]
                        && final(pipeline).effects() == effects.remove(key_position(effects, key)),
                    None => !has_key(effects, key) && final(pipeline).effects() == effects,
                }
            }),
    {
        let mut sink = DiscardEffectLifecycleEvents::new();
        self.run_with_sink(pipeline, &mut sink)
    }

    /// Removes the effect and reports the removal into `sink`.
    pub fn run_with_sink<Tags, Payload, Sink: EffectLifecycleSink<Tags, Payload>>(
        self,
        pipeline: &mut EffectPipeline<Tags, Payload>,
        sink: &mut Sink,
    ) -> (removed: Option<EffectInstance<Tags, Payload>>)
        requires
            old(pipeline).wf(),
        ensures
            final(pipeline).wf(),
            final(pipeline).next_id_raw() == old(pipeline).next_id_raw(),
            !has_key(final(pipeline).effects(), self.target().raw()),
            ({
                let effects = old(pipeline).effects();
                let key = self.target().raw();
                match removed {
                    Some(e) => has_key(effects, key) && e == effects[key_position(effects, key)]
                        && final(pipeline).effects() == effects.remove(key_position(effects, key))
                        && final(sink).emitted() == old(sink).emitted().push(
                        EffectFact::Removed(super::events::instance_fact(e)),
                    ),
                    None => !has_key(effects, key) && final(pipeline).effects() == effects
                        && final(sink).emitted() == old(sink).emitted(),
                }
            }),
    {
        pipeline.remove_with_sink(self.effect_id, sink)
    }
}

/// Object-reference effect cleanup command builder.
#[derive(Clone, Copy, Debug, PartialEq, Eq)]
pub struct EffectRemoveForObject {
    object_id: ObjectId,
    policy: EffectObjectRemovalPolicy,
}

impl EffectRemoveForObject {
    /// The object whose effects are removed.
    pub closed spec fn object(&self) -> ObjectId {
        self.object_id
    }

    /// Which references select an effect for removal.
    pub closed spec fn policy(&self) -> EffectObjectRemovalPolicy {
        self.policy
    }

    pub fn new(object_id: ObjectId, policy: EffectObjectRemovalPolicy) -> (command: EffectRemoveForObject)
        ensures
            command.object() == object_id,
            command.policy() == policy,
    {
        EffectRemoveForObject { object_id, policy }
    }

    /// Removes the selected effects with no lifecycle sink.
    pub fn run<Tags, Payload>(self, pipeline: &mut EffectPipeline<Tags, Payload>) -> (removed: Vec<
        EffectInstance<Tags, Payload>,
    >)
        requires
            old(pipeline).wf(),
        ensures
            final(pipeline).wf(),
            final(pipeline).next_id_raw() == old(pipeline).next_id_raw(),
            final(pipeline).effects() == kept_effects(old(pipeline).effects(), self.object(), self.policy()),
            removed@ == selected_effects(old(pipeline).effects(), self.object(), self.policy()),
    {
        pipeline.remove_for_object(self.object_id, self.policy)
    }

    /// Removes the selected effects and reports each removal into `sink`.
    pub fn run_with_sink<Tags, Payload, Sink: EffectLifecycleSink<Tags, Payload>>(
        self,
        pipeline: &mut EffectPipeline<Tags, Payload>,
        sink: &mut Sink,
    ) -> (removed: Vec<EffectInstance<Tags, Payload>>)
        requires
            old(pipeline).wf(),
        ensures
            final(pipeline).wf(),
            final(pipeline).next_id_raw() == old(pipeline).next_id_raw(),
            final(pipeline).effects() == kept_effects(old(pipeline).effects(), self.object(), self.policy()),
            removed@ == selected_effects(old(pipeline).effects(), self.object(), self.policy()),
            final(sink).emitted() == old(sink).emitted() + removed_facts(removed@),
    {
        pipeline.remove_for_object_with_sink(self.object_id, self.policy, sink)
    }
}

impl<InitializeError: std::fmt::Display, ExecutionError: std::fmt::Display> EffectApplyError<
    InitializeError,
    ExecutionError,
> {
    /// Describes this error for people; initializer and action failures are described by the
    /// caller's own `Display` text.
    pub fn message(&self) -> (text: String)
        ensures
            match *self {
                EffectApplyError::Definition(error) => text@ == error.message_view(),
                EffectApplyError::RegisteredDefinition(error) => text@
                    == "registered effect application failed: "@ + error.message_view(),
                EffectApplyError::Application(error) => text@ == "effect application failed: "@
                    + error.message_view(),
                EffectApplyError::Initialize(_) => text_extends(text@, "effect initialization failed: "@),
                EffectApplyError::Execution(_) => text_extends(text@, "effect execution failed: "@),
            },
    {
        match self {
            EffectApplyError::Definition(error) => error.message(),
            EffectApplyError::RegisteredDefinition(error) => {
                let inner = error.message();
                text2("registered effect application failed: ", inner.as_str())
            },
            EffectApplyError::Application(error) => {
                let inner = error.message();
                text2("effect application failed: ", inner.as_str())
            },
            EffectApplyError::Initialize(error) => {
                let inner = display_text(error);
                let text = text2("effect initialization failed: ", inner.as_str());
                assert(("effect initialization failed: "@ + inner@) == text@);
                text
            },
            EffectApplyError::Execution(error) => {
                let inner = display_text(error);
                let text = text2("effect execution failed: ", inner.as_str());
                assert(("effect execution failed: "@ + inner@) == text@);
                text
            },
        }
    }
}

} // verus!
