use flexweave::effect::application::{
    DiscardEffectLifecycleEvents, EffectActionExecutor, EffectExecutionAction,
    EffectLifecycleListener, ListenedEffectLifecycleEvents,
};
use flexweave::effect::events::EffectLifecycleEventView;
use flexweave::{
    ActiveEffectId, EffectApplicationDraft, EffectApplicationError, EffectApplicationInput,
    EffectApply, EffectApplyError, EffectApplyOutcome, EffectDefinition, EffectDefinitionError,
    EffectDefinitionRegistryError, EffectDefinitions, EffectExecutionView, EffectInitializer,
    EffectKind, EffectObjectRemovalPolicy, EffectPipeline, EffectRemove, EffectRemoveForObject,
    EffectSourcePolicy, EffectTick, ObjectId, ObjectStore, Tag, TagSet,
};
use std::convert::Infallible;

type Tags = TagSet<&'static str>;

fn tags(atoms: &[&'static str]) -> Tags {
    TagSet::new(vec![Tag::new(atoms.to_vec())])
}

fn accept(target: u64) -> EffectApplicationInput<Tags, u32> {
    EffectApplicationInput::accept(None, ObjectId::new(target), tags(&["burn"]), 7)
}

#[derive(Default)]
struct Recorder {
    kinds: Vec<&'static str>,
}

impl EffectLifecycleListener<Tags, u32> for Recorder {
    fn on_effect_lifecycle(&mut self, event: EffectLifecycleEventView<'_, Tags, u32>) {
        let kind = match event {
            EffectLifecycleEventView::ApplicationAccepted(_) => "accepted",
            EffectLifecycleEventView::ApplicationRejected(_) => "rejected",
            EffectLifecycleEventView::ActiveCreated(_) => "created",
            EffectLifecycleEventView::Executed(_) => "executed",
            EffectLifecycleEventView::PeriodicExecuted(_) => "periodic",
            EffectLifecycleEventView::Advanced(_) => "advanced",
            EffectLifecycleEventView::Removed(_) => "removed",
            EffectLifecycleEventView::Expired(_) => "expired",
        };
        self.kinds.push(kind);
    }
}

struct CountingAction {
    runs: u32,
    fail: bool,
}

impl EffectExecutionAction<(), Tags, u32> for CountingAction {
    type Error = &'static str;

    fn execute_effect(
        &mut self,
        _context: &mut (),
        _execution: EffectExecutionView<'_, Tags, u32>,
    ) -> Result<(), &'static str> {
        if self.fail {
            return Err("action failed");
        }
        self.runs += 1;
        Ok(())
    }
}

#[test]
fn duration_effect_counts_down_and_expires() {
    let definition = EffectDefinition::duration("effects/burn".to_owned(), 3, ());
    let mut pipeline: EffectPipeline<Tags, u32> = EffectPipeline::new();
    let outcome = EffectApply::definition(&definition, accept(1)).run(&mut pipeline).unwrap();
    assert_eq!(outcome, EffectApplyOutcome::ActiveCreated(ActiveEffectId::new(1)));
    assert_eq!(pipeline.count(), 1);
    let effect = pipeline.get(ActiveEffectId::new(1)).unwrap();
    assert_eq!(effect.remaining_units, Some(3));
    assert_eq!(effect.definition_key.as_deref(), Some("effects/burn"));
    assert_eq!(effect.payload, 7);

    EffectTick::new(1).run(&mut pipeline);
    assert_eq!(pipeline.get(ActiveEffectId::new(1)).unwrap().remaining_units, Some(2));

    EffectTick::new(5).run(&mut pipeline);
    assert_eq!(pipeline.count(), 0);
    assert!(pipeline.get(ActiveEffectId::new(1)).is_none());
}

#[test]
fn zero_tick_changes_nothing() {
    let definition = EffectDefinition::duration("effects/burn".to_owned(), 3, ());
    let mut pipeline: EffectPipeline<Tags, u32> = EffectPipeline::new();
    EffectApply::definition(&definition, accept(1)).run(&mut pipeline).unwrap();
    let mut recorder = Recorder::default();
    let mut executor = flexweave::effect::application::NoEffectExecutor::new()
        .with_borrowed_events(ListenedEffectLifecycleEvents::new(&mut recorder));
    EffectTick::new(0).run_with_executor(&mut pipeline, &mut (), &mut executor).unwrap();
    assert!(recorder.kinds.is_empty());
    assert_eq!(pipeline.get(ActiveEffectId::new(1)).unwrap().remaining_units, Some(3));
}

impl<'a> EffectLifecycleListener<Tags, u32> for &'a mut Recorder {
    fn on_effect_lifecycle(&mut self, event: EffectLifecycleEventView<'_, Tags, u32>) {
        (**self).on_effect_lifecycle(event);
    }
}

#[test]
fn periodic_effect_runs_once_per_completed_period_and_reports_in_order() {
    let definition = EffectDefinition::periodic("effects/poison".to_owned(), 10, 3, ());
    let mut pipeline: EffectPipeline<Tags, u32> = EffectPipeline::new();
    EffectApply::definition(&definition, accept(1)).run(&mut pipeline).unwrap();
    let mut action = CountingAction { runs: 0, fail: false };
    let mut recorder = Recorder::default();
    {
        let mut executor = EffectActionExecutor::new(&mut action).with_borrowed_events(ListenedEffectLifecycleEvents::new(&mut recorder));
        EffectTick::new(7).run_with_executor(&mut pipeline, &mut (), &mut executor).unwrap();
    }
    assert_eq!(action.runs, 2);
    assert_eq!(recorder.kinds, vec!["advanced", "periodic", "periodic"]);
    let effect = pipeline.get(ActiveEffectId::new(1)).unwrap();
    assert_eq!(effect.remaining_units, Some(3));
    assert_eq!(effect.period_elapsed_units, 1);
}

#[test]
fn splitting_a_tick_matches_one_tick() {
    let definition = EffectDefinition::periodic("effects/poison".to_owned(), 20, 4, ());
    let mut split: EffectPipeline<Tags, u32> = EffectPipeline::new();
    let mut whole: EffectPipeline<Tags, u32> = EffectPipeline::new();
    EffectApply::definition(&definition, accept(1)).run(&mut split).unwrap();
    EffectApply::definition(&definition, accept(1)).run(&mut whole).unwrap();

    let mut split_action = CountingAction { runs: 0, fail: false };
    {
        let mut executor = EffectActionExecutor::new(&mut split_action);
        EffectTick::new(3).run_with_executor(&mut split, &mut (), &mut executor).unwrap();
        EffectTick::new(6).run_with_executor(&mut split, &mut (), &mut executor).unwrap();
    }
    let mut whole_action = CountingAction { runs: 0, fail: false };
    {
        let mut executor = EffectActionExecutor::new(&mut whole_action);
        EffectTick::new(9).run_with_executor(&mut whole, &mut (), &mut executor).unwrap();
    }
    assert_eq!(split_action.runs, whole_action.runs);
    assert_eq!(split_action.runs, 2);
    let a = split.get(ActiveEffectId::new(1)).unwrap();
    let b = whole.get(ActiveEffectId::new(1)).unwrap();
    assert_eq!(a.remaining_units, b.remaining_units);
    assert_eq!(a.period_elapsed_units, b.period_elapsed_units);
    assert_eq!(a.period_elapsed_units, 1);
}

#[test]
fn periodic_effect_expiring_mid_tick_runs_only_periods_before_expiry() {
    let definition = EffectDefinition::periodic("effects/poison".to_owned(), 5, 2, ());
    let mut pipeline: EffectPipeline<Tags, u32> = EffectPipeline::new();
    EffectApply::definition(&definition, accept(1)).run(&mut pipeline).unwrap();
    let mut action = CountingAction { runs: 0, fail: false };
    let mut recorder = Recorder::default();
    {
        let mut executor = EffectActionExecutor::new(&mut action).with_borrowed_events(ListenedEffectLifecycleEvents::new(&mut recorder));
        EffectTick::new(100).run_with_executor(&mut pipeline, &mut (), &mut executor).unwrap();
    }
    assert_eq!(action.runs, 2);
    assert_eq!(recorder.kinds, vec!["advanced", "periodic", "periodic", "expired"]);
    assert_eq!(pipeline.count(), 0);
}

#[test]
fn failing_periodic_action_stops_the_tick() {
    let definition = EffectDefinition::periodic("effects/poison".to_owned(), 10, 2, ());
    let mut pipeline: EffectPipeline<Tags, u32> = EffectPipeline::new();
    EffectApply::definition(&definition, accept(1)).run(&mut pipeline).unwrap();
    let mut action = CountingAction { runs: 0, fail: true };
    let mut executor = EffectActionExecutor::new(&mut action);
    let result = EffectTick::new(4).run_with_executor(&mut pipeline, &mut (), &mut executor);
    assert_eq!(result, Err("action failed"));
    assert_eq!(pipeline.count(), 1);
    let effect = pipeline.get(ActiveEffectId::new(1)).unwrap();
    assert_eq!(effect.remaining_units, Some(6));
    assert_eq!(effect.period_elapsed_units, 4);
}

#[test]
fn huge_ticks_on_a_long_periodic_effect_keep_counting() {
    let definition = EffectDefinition::periodic("effects/slow".to_owned(), u64::MAX, u64::MAX, ());
    let mut pipeline: EffectPipeline<Tags, u32> = EffectPipeline::new();
    EffectApply::definition(&definition, accept(1)).run(&mut pipeline).unwrap();
    let mut action = CountingAction { runs: 0, fail: false };
    {
        let mut executor = EffectActionExecutor::new(&mut action);
        EffectTick::new(7).run_with_executor(&mut pipeline, &mut (), &mut executor).unwrap();
    }
    let effect = pipeline.get(ActiveEffectId::new(1)).unwrap();
    assert_eq!(effect.period_elapsed_units, 7);
    assert_eq!(effect.remaining_units, Some(u64::MAX - 7));
    {
        let mut executor = EffectActionExecutor::new(&mut action);
        EffectTick::new(u64::MAX).run_with_executor(&mut pipeline, &mut (), &mut executor).unwrap();
    }
    assert_eq!(action.runs, 1);
    assert_eq!(pipeline.count(), 0);
}

struct FailAfter {
    runs: u32,
    allowed: u32,
}

impl EffectExecutionAction<(), Tags, u32> for FailAfter {
    type Error = &'static str;

    fn execute_effect(
        &mut self,
        _context: &mut (),
        _execution: EffectExecutionView<'_, Tags, u32>,
    ) -> Result<(), &'static str> {
        if self.runs == self.allowed {
            return Err("action failed");
        }
        self.runs += 1;
        Ok(())
    }
}

#[test]
fn failure_after_some_periods_keeps_the_spent_periods_and_the_rest_of_the_counter() {
    let definition = EffectDefinition::periodic("effects/poison".to_owned(), 10, 2, ());
    let mut pipeline: EffectPipeline<Tags, u32> = EffectPipeline::new();
    EffectApply::definition(&definition, accept(1)).run(&mut pipeline).unwrap();
    EffectApply::definition(&definition, accept(2)).run(&mut pipeline).unwrap();
    let mut action = FailAfter { runs: 0, allowed: 1 };
    let mut recorder = Recorder::default();
    let result = {
        let mut executor = EffectActionExecutor::new(&mut action).with_borrowed_events(ListenedEffectLifecycleEvents::new(&mut recorder));
        EffectTick::new(5).run_with_executor(&mut pipeline, &mut (), &mut executor)
    };
    assert_eq!(result, Err("action failed"));
    assert_eq!(action.runs, 1);
    assert_eq!(recorder.kinds, vec!["advanced", "periodic"]);
    let first = pipeline.get(ActiveEffectId::new(1)).unwrap();
    assert_eq!(first.remaining_units, Some(5));
    assert_eq!(first.period_elapsed_units, 3);
    let second = pipeline.get(ActiveEffectId::new(2)).unwrap();
    assert_eq!(second.remaining_units, Some(10));
    assert_eq!(second.period_elapsed_units, 0);
}

#[test]
fn indefinite_effect_never_expires() {
    let definition = EffectDefinition::indefinite("effects/aura".to_owned(), ());
    let mut pipeline: EffectPipeline<Tags, u32> = EffectPipeline::new();
    EffectApply::definition(&definition, accept(1)).run(&mut pipeline).unwrap();
    EffectTick::new(u64::MAX).run(&mut pipeline);
    assert_eq!(pipeline.count(), 1);
    assert_eq!(pipeline.get(ActiveEffectId::new(1)).unwrap().remaining_units, None);
}

#[test]
fn instant_effect_executes_without_creating_an_instance() {
    let definition = EffectDefinition::instant("effects/hit".to_owned(), ());
    let mut pipeline: EffectPipeline<Tags, u32> = EffectPipeline::new();
    let mut action = CountingAction { runs: 0, fail: false };
    let mut recorder = Recorder::default();
    let outcome = {
        let mut executor = EffectActionExecutor::new(&mut action).with_borrowed_events(ListenedEffectLifecycleEvents::new(&mut recorder));
        EffectApply::definition(&definition, accept(1))
            .run_with_executor(&mut pipeline, &mut (), &mut executor)
            .unwrap()
    };
    assert_eq!(outcome, EffectApplyOutcome::ExecutedInstant);
    assert_eq!(action.runs, 1);
    assert_eq!(recorder.kinds, vec!["accepted", "executed"]);
    assert_eq!(pipeline.count(), 0);
}

#[test]
fn failing_instant_action_is_reported_as_execution_error() {
    let definition = EffectDefinition::instant("effects/hit".to_owned(), ());
    let mut pipeline: EffectPipeline<Tags, u32> = EffectPipeline::new();
    let mut action = CountingAction { runs: 0, fail: true };
    let mut executor = EffectActionExecutor::new(&mut action);
    let result = EffectApply::definition(&definition, accept(1))
        .run_with_executor(&mut pipeline, &mut (), &mut executor);
    assert_eq!(result, Err(EffectApplyError::Execution("action failed")));
}

#[test]
fn rejected_application_is_reported_and_changes_nothing() {
    let definition = EffectDefinition::duration("effects/burn".to_owned(), 3, ());
    let mut pipeline: EffectPipeline<Tags, u32> = EffectPipeline::new();
    let input = EffectApplicationInput::reject(
        None,
        ObjectId::new(1),
        tags(&["burn"]),
        7,
        "immune".to_owned(),
    );
    let mut recorder = Recorder::default();
    let mut executor =
        flexweave::effect::application::NoEffectExecutor::new().with_borrowed_events(ListenedEffectLifecycleEvents::new(&mut recorder));
    let outcome = EffectApply::definition(&definition, input)
        .run_with_executor(&mut pipeline, &mut (), &mut executor)
        .unwrap();
    assert_eq!(outcome, EffectApplyOutcome::Rejected);
    assert_eq!(recorder.kinds, vec!["rejected"]);
    assert_eq!(pipeline.count(), 0);
}

#[test]
fn successive_applications_get_successive_ids() {
    let definition = EffectDefinition::duration("effects/burn".to_owned(), 3, ());
    let mut pipeline: EffectPipeline<Tags, u32> = EffectPipeline::new();
    let first = EffectApply::definition(&definition, accept(1)).run(&mut pipeline).unwrap();
    let second = EffectApply::definition(&definition, accept(2)).run(&mut pipeline).unwrap();
    assert_eq!(first, EffectApplyOutcome::ActiveCreated(ActiveEffectId::new(1)));
    assert_eq!(second, EffectApplyOutcome::ActiveCreated(ActiveEffectId::new(2)));
}

#[test]
fn only_created_effects_take_ids_in_creation_order() {
    let lasting = EffectDefinition::duration("effects/burn".to_owned(), 3, ());
    let instant = EffectDefinition::instant("effects/hit".to_owned(), ());
    let mut pipeline: EffectPipeline<Tags, u32> = EffectPipeline::new();
    let rejected = EffectApplicationInput::reject(None, ObjectId::new(1), tags(&["burn"]), 7, "immune".to_owned());
    assert_eq!(EffectApply::definition(&instant, accept(1)).run(&mut pipeline).unwrap(), EffectApplyOutcome::ExecutedInstant);
    assert_eq!(
        EffectApply::definition(&lasting, accept(1)).run(&mut pipeline).unwrap(),
        EffectApplyOutcome::ActiveCreated(ActiveEffectId::new(1))
    );
    assert_eq!(EffectApply::definition(&lasting, rejected).run(&mut pipeline).unwrap(), EffectApplyOutcome::Rejected);
    EffectTick::new(1).run(&mut pipeline);
    assert!(pipeline.remove(ActiveEffectId::new(1)).is_some());
    assert_eq!(EffectApply::definition(&instant, accept(2)).run(&mut pipeline).unwrap(), EffectApplyOutcome::ExecutedInstant);
    assert_eq!(
        EffectApply::definition(&lasting, accept(2)).run(&mut pipeline).unwrap(),
        EffectApplyOutcome::ActiveCreated(ActiveEffectId::new(2))
    );
    assert_eq!(
        EffectApply::definition(&lasting, accept(3)).run(&mut pipeline).unwrap(),
        EffectApplyOutcome::ActiveCreated(ActiveEffectId::new(3))
    );
    assert_eq!(pipeline.count(), 2);
}

#[test]
fn checked_application_validates_references() {
    let definition = EffectDefinition::duration("effects/burn".to_owned(), 3, ());
    let mut objects = ObjectStore::new();
    let target = objects.create();
    let mut pipeline: EffectPipeline<Tags, u32> = EffectPipeline::new();

    let missing_source = EffectApply::definition(
        &definition,
        EffectApplicationInput::accept(None, target, tags(&["burn"]), 7),
    )
    .checked(&objects, EffectSourcePolicy::RequireLiveSource)
    .run(&mut pipeline);
    assert_eq!(missing_source, Err(EffectApplyError::Application(EffectApplicationError::MissingSource)));

    let dead_source = ObjectId::new(99);
    let invalid_source = EffectApply::definition(
        &definition,
        EffectApplicationInput::accept(Some(dead_source), target, tags(&["burn"]), 7),
    )
    .checked(&objects, EffectSourcePolicy::AllowSystemSource)
    .run(&mut pipeline);
    assert_eq!(
        invalid_source,
        Err(EffectApplyError::Application(EffectApplicationError::InvalidSource {
            source_id: dead_source
        }))
    );

    let invalid_target = EffectApply::definition(
        &definition,
        EffectApplicationInput::accept(None, ObjectId::new(42), tags(&["burn"]), 7),
    )
    .checked(&objects, EffectSourcePolicy::AllowSystemSource)
    .run(&mut pipeline);
    assert_eq!(
        invalid_target,
        Err(EffectApplyError::Application(EffectApplicationError::InvalidTarget {
            target_id: ObjectId::new(42)
        }))
    );

    let system = EffectApply::definition(
        &definition,
        EffectApplicationInput::accept(None, target, tags(&["burn"]), 7),
    )
    .checked(&objects, EffectSourcePolicy::AllowSystemSource)
    .run(&mut pipeline);
    assert_eq!(system, Ok(EffectApplyOutcome::ActiveCreated(ActiveEffectId::new(1))));
}

#[test]
fn invalid_direct_definition_is_rejected_before_application() {
    let definition = EffectDefinition::duration("effects/burn".to_owned(), 0, ());
    let mut pipeline: EffectPipeline<Tags, u32> = EffectPipeline::new();
    let result = EffectApply::definition(&definition, accept(1)).run(&mut pipeline);
    assert_eq!(
        result,
        Err(EffectApplyError::Definition(EffectDefinitionError::InvalidDuration {
            key: "effects/burn".to_owned()
        }))
    );
    assert_eq!(pipeline.count(), 0);
}

#[test]
fn registered_application_uses_the_registry() {
    let definitions = EffectDefinitions::new(vec![
        EffectDefinition::duration("effects/burn".to_owned(), 4, ()),
        EffectDefinition::instant("effects/hit".to_owned(), ()),
    ])
    .unwrap();
    let mut pipeline: EffectPipeline<Tags, u32> = EffectPipeline::new();
    let created = EffectApply::registered(&definitions, "effects/burn", accept(1)).run(&mut pipeline);
    assert_eq!(created, Ok(EffectApplyOutcome::ActiveCreated(ActiveEffectId::new(1))));
    assert_eq!(pipeline.get(ActiveEffectId::new(1)).unwrap().remaining_units, Some(4));
    let missing = EffectApply::registered(&definitions, "effects/none", accept(1)).run(&mut pipeline);
    assert_eq!(
        missing,
        Err(EffectApplyError::RegisteredDefinition(
            EffectDefinitionRegistryError::MissingDefinition { key: "effects/none".to_owned() }
        ))
    );
}

struct StretchDuration;

impl EffectInitializer<(), Tags, u32> for StretchDuration {
    type Error = Infallible;

    fn initialize(
        &mut self,
        _context: &mut (),
        draft: &mut EffectApplicationDraft<'_, Tags, u32>,
    ) -> Result<(), Infallible> {
        draft.payload += 1;
        draft.set_duration_units(Some(9));
        Ok(())
    }
}

struct DropDuration;

impl EffectInitializer<(), Tags, u32> for DropDuration {
    type Error = &'static str;

    fn initialize(
        &mut self,
        _context: &mut (),
        draft: &mut EffectApplicationDraft<'_, Tags, u32>,
    ) -> Result<(), &'static str> {
        draft.set_duration_units(None);
        Ok(())
    }
}

struct RefuseDraft;

impl EffectInitializer<(), Tags, u32> for RefuseDraft {
    type Error = &'static str;

    fn initialize(
        &mut self,
        _context: &mut (),
        _draft: &mut EffectApplicationDraft<'_, Tags, u32>,
    ) -> Result<(), &'static str> {
        Err("no")
    }
}

#[test]
fn initializer_rewrites_payload_and_clocks() {
    let definition = EffectDefinition::duration("effects/burn".to_owned(), 3, ());
    let mut pipeline: EffectPipeline<Tags, u32> = EffectPipeline::new();
    let outcome = EffectApply::definition(&definition, accept(1))
        .initialized(StretchDuration)
        .run(&mut pipeline)
        .unwrap();
    assert_eq!(outcome, EffectApplyOutcome::ActiveCreated(ActiveEffectId::new(1)));
    let effect = pipeline.get(ActiveEffectId::new(1)).unwrap();
    assert_eq!(effect.remaining_units, Some(9));
    assert_eq!(effect.payload, 8);
}

#[test]
fn initialized_clocks_are_checked_against_the_kind() {
    let definition = EffectDefinition::duration("effects/burn".to_owned(), 3, ());
    let mut pipeline: EffectPipeline<Tags, u32> = EffectPipeline::new();
    let result = EffectApply::definition(&definition, accept(1))
        .initialized(DropDuration)
        .run(&mut pipeline);
    assert_eq!(
        result,
        Err(EffectApplyError::Definition(EffectDefinitionError::DurationRequired {
            key: "effects/burn".to_owned()
        }))
    );
    let refused = EffectApply::definition(&definition, accept(1))
        .initialized(RefuseDraft)
        .run(&mut pipeline);
    assert_eq!(refused, Err(EffectApplyError::Initialize("no")));
    assert_eq!(pipeline.count(), 0);
}

#[test]
fn removal_by_id_reports_the_removed_instance() {
    let definition = EffectDefinition::indefinite("effects/aura".to_owned(), ());
    let mut pipeline: EffectPipeline<Tags, u32> = EffectPipeline::new();
    EffectApply::definition(&definition, accept(1)).run(&mut pipeline).unwrap();
    EffectApply::definition(&definition, accept(2)).run(&mut pipeline).unwrap();
    let mut recorder = Recorder::default();
    let removed = EffectRemove::new(ActiveEffectId::new(1)).run_with_sink(&mut pipeline, &mut ListenedEffectLifecycleEvents::new(&mut recorder));
    assert_eq!(removed.map(|e| e.id), Some(ActiveEffectId::new(1)));
    assert_eq!(recorder.kinds, vec!["removed"]);
    assert!(EffectRemove::new(ActiveEffectId::new(1)).run(&mut pipeline).is_none());
    assert_eq!(pipeline.count(), 1);
    assert_eq!(pipeline.instances()[0].id, ActiveEffectId::new(2));
}

#[test]
fn cleanup_removes_effects_referencing_the_object() {
    let definition = EffectDefinition::indefinite("effects/aura".to_owned(), ());
    let mut pipeline: EffectPipeline<Tags, u32> = EffectPipeline::new();
    let a = ObjectId::new(1);
    let b = ObjectId::new(2);
    let c = ObjectId::new(3);
    EffectApply::definition(&definition, EffectApplicationInput::accept(Some(a), b, tags(&["x"]), 1))
        .run(&mut pipeline)
        .unwrap();
    EffectApply::definition(&definition, EffectApplicationInput::accept(Some(b), c, tags(&["x"]), 2))
        .run(&mut pipeline)
        .unwrap();
    EffectApply::definition(&definition, EffectApplicationInput::accept(None, a, tags(&["x"]), 3))
        .run(&mut pipeline)
        .unwrap();

    let mut target_only = EffectPipeline::new();
    std::mem::swap(&mut target_only, &mut pipeline);
    let removed = EffectRemoveForObject::new(b, EffectObjectRemovalPolicy::Target).run(&mut target_only);
    assert_eq!(removed.iter().map(|e| e.payload).collect::<Vec<_>>(), vec![1]);
    assert_eq!(target_only.count(), 2);

    let mut recorder = Recorder::default();
    let removed = EffectRemoveForObject::new(a, EffectObjectRemovalPolicy::SourceOrTarget)
        .run_with_sink(&mut target_only, &mut ListenedEffectLifecycleEvents::new(&mut recorder));
    assert_eq!(removed.iter().map(|e| e.payload).collect::<Vec<_>>(), vec![3]);
    assert_eq!(recorder.kinds, vec!["removed"]);
    let removed = EffectRemoveForObject::new(b, EffectObjectRemovalPolicy::Source).run(&mut target_only);
    assert_eq!(removed.iter().map(|e| e.payload).collect::<Vec<_>>(), vec![2]);
    assert_eq!(target_only.count(), 0);
}

#[test]
fn has_tag_looks_at_effects_on_the_target() {
    let definition = EffectDefinition::indefinite("effects/aura".to_owned(), ());
    let mut pipeline: EffectPipeline<Tags, u32> = EffectPipeline::new();
    EffectApply::definition(&definition, accept(1)).run(&mut pipeline).unwrap();
    assert!(pipeline.has_tag(ObjectId::new(1), &Tag::new(vec!["burn"])));
    assert!(!pipeline.has_tag(ObjectId::new(2), &Tag::new(vec!["burn"])));
    assert!(!pipeline.has_tag(ObjectId::new(1), &Tag::new(vec!["freeze"])));
}

#[test]
fn discard_sink_accepts_removals() {
    let definition = EffectDefinition::indefinite("effects/aura".to_owned(), ());
    let mut pipeline: EffectPipeline<Tags, u32> = EffectPipeline::new();
    EffectApply::definition(&definition, accept(1)).run(&mut pipeline).unwrap();
    let mut sink = DiscardEffectLifecycleEvents::new();
    assert!(pipeline.remove_with_sink(ActiveEffectId::new(1), &mut sink).is_some());
}

#[test]
fn definition_validation_reports_each_failure() {
    let key = || "effects/x".to_owned();
    assert_eq!(
        EffectDefinition::instant(String::new(), ()).validate(),
        Err(EffectDefinitionError::EmptyKey)
    );
    let mut instant = EffectDefinition::instant(key(), ());
    instant.duration = Some(flexweave::EffectClockPolicy::new(1));
    assert_eq!(instant.validate(), Err(EffectDefinitionError::DurationNotAllowed { key: key() }));
    let mut instant = EffectDefinition::instant(key(), ());
    instant.period = Some(flexweave::EffectClockPolicy::new(1));
    assert_eq!(instant.validate(), Err(EffectDefinitionError::PeriodNotAllowed { key: key() }));
    let mut duration = EffectDefinition::duration(key(), 1, ());
    duration.duration = None;
    assert_eq!(duration.validate(), Err(EffectDefinitionError::DurationRequired { key: key() }));
    let mut periodic = EffectDefinition::periodic(key(), 5, 1, ());
    periodic.period = None;
    assert_eq!(periodic.validate(), Err(EffectDefinitionError::PeriodRequired { key: key() }));
    assert_eq!(
        EffectDefinition::periodic(key(), 5, 0, ()).validate(),
        Err(EffectDefinitionError::InvalidPeriod { key: key() })
    );
    assert_eq!(
        EffectDefinition::instant(key(), ()).requiring_lifecycle_channel(String::new()).validate(),
        Err(EffectDefinitionError::EmptyLifecycleChannelKey { key: key() })
    );
    assert_eq!(
        EffectDefinition::instant(key(), ()).with_lifecycle_channels(vec![]).validate(),
        Ok(())
    );
    let mut routing = flexweave::EffectRouting::default();
    routing.requires_lifecycle_channel = true;
    assert_eq!(
        EffectDefinition::instant(key(), ()).with_routing(routing).validate(),
        Err(EffectDefinitionError::MissingLifecycleChannelKey { key: key() })
    );
    assert_eq!(
        EffectDefinition::instant(key(), ()).with_signal_channels(vec![String::new()]).validate(),
        Err(EffectDefinitionError::EmptySignalChannelKey { key: key() })
    );
    assert_eq!(EffectDefinition::indefinite(key(), ()).kind, EffectKind::Indefinite);
}

#[test]
fn definition_registry_rejects_invalid_and_duplicate_definitions() {
    let duplicate = EffectDefinitions::new(vec![
        EffectDefinition::instant("a".to_owned(), ()),
        EffectDefinition::instant("a".to_owned(), ()),
    ]);
    assert_eq!(
        duplicate,
        Err(EffectDefinitionRegistryError::DuplicateKey { key: "a".to_owned() })
    );
    let invalid = EffectDefinitions::new(vec![EffectDefinition::instant(String::new(), ())]);
    assert_eq!(
        invalid,
        Err(EffectDefinitionRegistryError::InvalidDefinition {
            error: EffectDefinitionError::EmptyKey
        })
    );
    let definitions = EffectDefinitions::new(vec![
        EffectDefinition::instant("a".to_owned(), 1),
        EffectDefinition::instant("b".to_owned(), 2),
    ])
    .unwrap();
    assert_eq!(definitions.definitions().len(), 2);
    assert_eq!(definitions.get("b").map(|d| d.payload_schema), Some(2));
    assert!(definitions.get("c").is_none());
    assert!(definitions.require("a").is_ok());
}

#[derive(Default)]
struct ViewRecorder {
    seen: Vec<(Option<u64>, Option<u64>, Option<u64>, Option<String>)>,
}

impl EffectExecutionAction<(), Tags, u32> for ViewRecorder {
    type Error = &'static str;

    fn execute_effect(
        &mut self,
        _context: &mut (),
        execution: EffectExecutionView<'_, Tags, u32>,
    ) -> Result<(), &'static str> {
        self.seen.push((
            execution.active_effect_id.map(|id| id.get()),
            execution.source_id.map(|id| id.get()),
            execution.elapsed_units,
            execution.definition_key.map(|key| key.to_owned()),
        ));
        Ok(())
    }
}

#[test]
fn periodic_runs_hand_the_action_the_effect_and_its_period() {
    let definition = EffectDefinition::periodic("fx/bleed".to_owned(), 10, 5, ());
    let mut pipeline: EffectPipeline<Tags, u32> = EffectPipeline::new();
    let input = EffectApplicationInput::accept(Some(ObjectId::new(9)), ObjectId::new(2), tags(&["bleed"]), 1);
    EffectApply::definition(&definition, input).run(&mut pipeline).unwrap();
    let mut action = ViewRecorder::default();
    let mut recorder = Recorder::default();
    {
        let mut executor = EffectActionExecutor::new(&mut action)
            .with_borrowed_events(ListenedEffectLifecycleEvents::new(&mut recorder));
        EffectTick::new(20).run_with_executor(&mut pipeline, &mut (), &mut executor).unwrap();
    }
    let expected = (Some(1), Some(9), Some(5), Some("fx/bleed".to_owned()));
    assert_eq!(action.seen, vec![expected.clone(), expected]);
    assert_eq!(recorder.kinds, vec!["advanced", "periodic", "periodic", "expired"]);
    assert_eq!(pipeline.count(), 0);
}

#[test]
fn instant_application_hands_the_action_the_application() {
    let definition = EffectDefinition::instant("fx/heal".to_owned(), ());
    let mut pipeline: EffectPipeline<Tags, u32> = EffectPipeline::new();
    let input = EffectApplicationInput::accept(Some(ObjectId::new(3)), ObjectId::new(4), tags(&["heal"]), 2);
    let mut action = ViewRecorder::default();
    {
        let mut executor = EffectActionExecutor::new(&mut action);
        let outcome = EffectApply::definition(&definition, input)
            .run_with_executor(&mut pipeline, &mut (), &mut executor)
            .unwrap();
        assert_eq!(outcome, EffectApplyOutcome::ExecutedInstant);
    }
    assert_eq!(action.seen, vec![(None, Some(3), None, Some("fx/heal".to_owned()))]);
    assert_eq!(pipeline.count(), 0);
}

#[test]
fn instances_on_lists_the_target_effects_in_order() {
    let definition = EffectDefinition::indefinite("fx/aura".to_owned(), ());
    let mut pipeline: EffectPipeline<Tags, u32> = EffectPipeline::new();
    EffectApply::definition(&definition, accept(1)).run(&mut pipeline).unwrap();
    EffectApply::definition(&definition, accept(2)).run(&mut pipeline).unwrap();
    EffectApply::definition(&definition, accept(1)).run(&mut pipeline).unwrap();
    let ids: Vec<u64> = pipeline.instances_on(ObjectId::new(1)).iter().map(|e| e.id.get()).collect();
    assert_eq!(ids, vec![1, 3]);
    assert!(pipeline.instances_on(ObjectId::new(7)).is_empty());
}
