use flexweave::ability::hooks::{
    AbilityActivationGate, AbilityGateExecutor, AbilityLifecycleListener,
    DiscardAbilityLifecycleEvents, ListenedAbilityLifecycleEvents,
};
use flexweave::ability::results::{AbilityBeginError, AbilityEndError, AbilityRollbackError, AbilityRollbackOutcome};
use flexweave::{
    AbilityActivation, AbilityActivationAttemptView, AbilityActivationDecision,
    AbilityActivationError, AbilityActivationId, AbilityCancelOutcome, AbilityCommit,
    AbilityCommitOutcome, AbilityDefinition, AbilityDefinitionError,
    AbilityDefinitionRegistryError, AbilityDefinitions, AbilityEndOutcome, AbilityError,
    AbilityGrantError, AbilityId, AbilityLifecycleEventView, AbilityStore, Grant, LifecycleEvent,
    LifecycleEventKind, ObjectId, ObjectStore, Tag, TagSet,
};

type Tags = TagSet<&'static str>;

fn grant(owner: u64) -> Grant<Tags, u32> {
    Grant::new(ObjectId::new(owner), TagSet::new(vec![Tag::new(vec!["melee"])]), 5)
}

#[derive(Default)]
struct Recorder {
    kinds: Vec<&'static str>,
}

impl AbilityLifecycleListener<Tags, u32> for Recorder {
    fn on_ability_lifecycle(&mut self, event: AbilityLifecycleEventView<'_, Tags, u32>) {
        self.kinds.push(match event {
            AbilityLifecycleEventView::Attempted(_) => "attempted",
            AbilityLifecycleEventView::Rejected(_) => "rejected",
            AbilityLifecycleEventView::Committed(_) => "committed",
            AbilityLifecycleEventView::Started(_) => "started",
            AbilityLifecycleEventView::Canceled(_) => "canceled",
            AbilityLifecycleEventView::Revoked(_) => "revoked",
            AbilityLifecycleEventView::RolledBack(_) => "rolled_back",
            AbilityLifecycleEventView::Ended(_) => "ended",
        });
    }
}

struct Cooldown {
    blocked: bool,
}

impl AbilityActivationGate<(), Tags, u32> for Cooldown {
    type Error = &'static str;
    type BlockReason = &'static str;

    fn can_activate(
        &mut self,
        _context: &(),
        _attempt: AbilityActivationAttemptView<'_, Tags, u32>,
    ) -> Result<AbilityActivationDecision<&'static str>, &'static str> {
        if self.blocked {
            Ok(AbilityActivationDecision::Block("cooling down"))
        } else {
            Ok(AbilityActivationDecision::Allow)
        }
    }
}

#[test]
fn grants_get_successive_ids() {
    let mut store: AbilityStore<Tags, u32> = AbilityStore::new();
    assert_eq!(store.grant(grant(1)), AbilityId::new(1));
    assert_eq!(store.grant(grant(1)), AbilityId::new(2));
    assert_eq!(store.count(), 2);
    assert_eq!(store.get(AbilityId::new(2)).unwrap().owner_id, ObjectId::new(1));
    assert!(store.get(AbilityId::new(3)).is_none());
}

#[test]
fn checked_grant_requires_a_live_owner() {
    let mut objects = ObjectStore::new();
    let owner = objects.create();
    let mut store: AbilityStore<Tags, u32> = AbilityStore::new();
    assert_eq!(store.grant_checked(&objects, grant(owner.get())), Ok(AbilityId::new(1)));
    assert_eq!(
        store.grant_checked(&objects, grant(9)),
        Err(AbilityGrantError::InvalidOwner { owner_id: ObjectId::new(9) })
    );
    assert_eq!(store.count(), 1);
}

#[test]
fn activation_commit_end_lifecycle() {
    let mut store: AbilityStore<Tags, u32> = AbilityStore::new();
    let ability = store.grant(grant(1));
    let activation = AbilityActivation::new(ability).run(&mut store).unwrap();
    assert_eq!(activation, AbilityActivationId::new(1));
    assert_eq!(store.active_activation_count(), 1);
    assert!(!store.get_active_activation(activation).unwrap().committed);

    assert_eq!(AbilityCommit::new(activation).run(&mut store), Ok(AbilityCommitOutcome::Committed));
    assert!(store.get_active_activation(activation).unwrap().committed);
    assert_eq!(
        AbilityCommit::new(activation).run(&mut store),
        Ok(AbilityCommitOutcome::AlreadyCommitted)
    );

    let mut recorder = ListenedAbilityLifecycleEvents::new(Recorder::default());
    let ended = store.end_with_sink(activation, &mut recorder).unwrap();
    let AbilityEndOutcome::Ended(active) = ended;
    assert_eq!(active.activation_id, activation);
    assert_eq!(recorder.listener().kinds, vec!["ended"]);
    assert_eq!(store.active_activation_count(), 0);
    assert_eq!(
        AbilityCommit::new(activation).run(&mut store),
        Err(flexweave::ability::results::AbilityCommitError::Ability(AbilityError::MissingActivation))
    );
    assert_eq!(
        store.end_with_sink(activation, &mut recorder),
        Err(AbilityEndError::MissingActivation)
    );
}

#[test]
fn only_started_activations_take_ids_in_start_order() {
    let mut store: AbilityStore<Tags, u32> = AbilityStore::new();
    let first = store.grant(grant(1));
    let second = store.grant(grant(2));
    assert_eq!(AbilityActivation::new(first).run(&mut store), Ok(AbilityActivationId::new(1)));
    assert!(AbilityActivation::new(AbilityId::new(9)).run(&mut store).is_err());
    assert!(AbilityActivation::new(second).for_owner(ObjectId::new(1)).run(&mut store).is_err());
    assert_eq!(AbilityCommit::new(AbilityActivationId::new(1)).run(&mut store), Ok(AbilityCommitOutcome::Committed));
    let mut sink = DiscardAbilityLifecycleEvents::new();
    assert!(store.end_with_sink(AbilityActivationId::new(1), &mut sink).is_ok());
    assert_eq!(AbilityActivation::new(second).run(&mut store), Ok(AbilityActivationId::new(2)));
    assert_eq!(AbilityActivation::new(first).run(&mut store), Ok(AbilityActivationId::new(3)));
    assert_eq!(store.active_activation_count(), 2);
    assert_eq!(store.active_activations()[1].activation_id, AbilityActivationId::new(3));
}

#[test]
fn ending_an_uncommitted_activation_fails() {
    let mut store: AbilityStore<Tags, u32> = AbilityStore::new();
    let ability = store.grant(grant(1));
    let activation = AbilityActivation::new(ability).run(&mut store).unwrap();
    let mut sink = DiscardAbilityLifecycleEvents::new();
    assert_eq!(
        store.end_with_sink(activation, &mut sink),
        Err(AbilityEndError::UncommittedActivation)
    );
    assert_eq!(store.active_activation_count(), 1);
}

#[test]
fn activation_reports_resolution_failures() {
    let mut store: AbilityStore<Tags, u32> = AbilityStore::new();
    let ability = store.grant(grant(1));
    assert_eq!(
        AbilityActivation::new(AbilityId::new(7)).run(&mut store),
        Err(AbilityActivationError::Activation(AbilityBeginError::Ability(AbilityError::MissingAbility)))
    );
    assert_eq!(
        AbilityActivation::new(ability).for_owner(ObjectId::new(0)).run(&mut store),
        Err(AbilityActivationError::Activation(AbilityBeginError::Ability(
            AbilityError::InvalidOwner { owner_id: ObjectId::new(0) }
        )))
    );
    assert_eq!(
        AbilityActivation::new(ability).for_owner(ObjectId::new(2)).run(&mut store),
        Err(AbilityActivationError::Activation(AbilityBeginError::Ability(
            AbilityError::OwnerMismatch {
                expected_owner_id: ObjectId::new(2),
                actual_owner_id: ObjectId::new(1),
            }
        )))
    );
    assert_eq!(
        AbilityActivation::new(ability).for_owner(ObjectId::new(1)).run(&mut store),
        Ok(AbilityActivationId::new(1))
    );
}

#[test]
fn registered_activation_checks_the_definition_key() {
    let definitions =
        AbilityDefinitions::new(vec![AbilityDefinition::new("abilities/slash".to_owned(), ())]).unwrap();
    let mut store: AbilityStore<Tags, u32> = AbilityStore::new();
    let plain = store.grant(grant(1));
    assert_eq!(
        AbilityActivation::registered(&definitions, plain).run(&mut store),
        Err(AbilityActivationError::MissingGrantedDefinitionKey { ability_id: plain })
    );
    let keyed = store.grant_registered(&definitions, "abilities/slash", grant(1)).unwrap();
    assert_eq!(
        store.get(keyed).unwrap().definition_key.as_deref(),
        Some("abilities/slash")
    );
    let other =
        AbilityDefinitions::new(vec![AbilityDefinition::new("abilities/other".to_owned(), ())]).unwrap();
    assert_eq!(
        AbilityActivation::registered(&other, keyed).run(&mut store),
        Err(AbilityActivationError::Definition(AbilityDefinitionRegistryError::MissingDefinition {
            key: "abilities/slash".to_owned()
        }))
    );
    assert!(AbilityActivation::registered(&definitions, keyed).run(&mut store).is_ok());
    assert_eq!(
        store.grant_registered(&definitions, "abilities/none", grant(1)),
        Err(AbilityDefinitionRegistryError::MissingDefinition { key: "abilities/none".to_owned() })
    );
}

#[test]
fn gate_can_block_an_activation() {
    let mut store: AbilityStore<Tags, u32> = AbilityStore::new();
    let ability = store.grant(grant(1));
    let mut gate = Cooldown { blocked: true };
    let mut recorder = Recorder::default();
    let result = {
        let mut executor = AbilityGateExecutor::new(&mut gate).with_borrowed_events(ListenedAbilityLifecycleEvents::new(&mut recorder));
        AbilityActivation::new(ability).run_with_executor(&mut store, &(), &mut executor)
    };
    assert_eq!(
        result,
        Err(AbilityActivationError::Activation(AbilityBeginError::Blocked("cooling down")))
    );
    assert_eq!(recorder.kinds, vec!["attempted", "rejected"]);
    assert_eq!(store.active_activation_count(), 0);

    gate.blocked = false;
    let mut recorder = Recorder::default();
    let result = {
        let mut executor = AbilityGateExecutor::new(&mut gate).with_borrowed_events(ListenedAbilityLifecycleEvents::new(&mut recorder));
        AbilityActivation::new(ability).run_with_executor(&mut store, &(), &mut executor)
    };
    assert_eq!(result, Ok(AbilityActivationId::new(1)));
    assert_eq!(recorder.kinds, vec!["attempted", "started"]);
}

impl<'a> AbilityLifecycleListener<Tags, u32> for &'a mut Recorder {
    fn on_ability_lifecycle(&mut self, event: AbilityLifecycleEventView<'_, Tags, u32>) {
        (**self).on_ability_lifecycle(event);
    }
}

#[test]
fn cancel_and_rollback_remove_activations() {
    let mut store: AbilityStore<Tags, u32> = AbilityStore::new();
    let ability = store.grant(grant(1));
    let first = AbilityActivation::new(ability).run(&mut store).unwrap();
    let second = AbilityActivation::new(ability).run(&mut store).unwrap();
    let mut recorder = ListenedAbilityLifecycleEvents::new(Recorder::default());

    match store.cancel_with_sink(first, &mut recorder) {
        AbilityCancelOutcome::Canceled(active) => assert_eq!(active.activation_id, first),
        AbilityCancelOutcome::MissingActivation => panic!("expected a cancellation"),
    }
    assert_eq!(store.cancel_with_sink(first, &mut recorder), AbilityCancelOutcome::MissingActivation);

    let Ok(AbilityRollbackOutcome::RolledBack(active)) = store.rollback_with_sink(second, &mut recorder) else {
        panic!("expected a rollback");
    };
    assert_eq!(active.activation_id, second);
    assert_eq!(recorder.listener().kinds, vec!["canceled", "rolled_back"]);
    assert_eq!(
        store.rollback_with_sink(second, &mut recorder),
        Err(AbilityRollbackError::MissingActivation)
    );

    let third = AbilityActivation::new(ability).run(&mut store).unwrap();
    AbilityCommit::new(third).run(&mut store).unwrap();
    assert_eq!(
        store.rollback_with_sink(third, &mut recorder),
        Err(AbilityRollbackError::AlreadyCommitted)
    );
}

#[test]
fn removing_an_owner_revokes_its_grants_and_activations() {
    let mut store: AbilityStore<Tags, u32> = AbilityStore::new();
    let kept = store.grant(grant(2));
    let gone = store.grant(grant(1));
    AbilityActivation::new(gone).run(&mut store).unwrap();
    AbilityActivation::new(kept).run(&mut store).unwrap();
    let mut recorder = ListenedAbilityLifecycleEvents::new(Recorder::default());
    let revoked = store.remove_owner_with_sink(ObjectId::new(1), &mut recorder);
    assert_eq!(revoked.grants.len(), 1);
    assert_eq!(revoked.grants[0].id, gone);
    assert_eq!(revoked.active_abilities.len(), 1);
    assert_eq!(recorder.listener().kinds, vec!["revoked"]);
    assert_eq!(store.count(), 1);
    assert_eq!(store.active_activation_count(), 1);
    assert_eq!(store.active_activations()[0].ability_id, kept);
}

#[test]
fn tag_queries_are_per_owner() {
    let mut store: AbilityStore<Tags, u32> = AbilityStore::new();
    let a = store.grant(grant(1));
    store.grant(Grant::new(ObjectId::new(1), TagSet::new(vec![Tag::new(vec!["ranged"])]), 0));
    let c = store.grant(grant(1));
    store.grant(grant(2));
    let melee = Tag::new(vec!["melee"]);
    assert!(store.has_tag(ObjectId::new(1), &melee));
    assert!(!store.has_tag(ObjectId::new(3), &melee));
    assert_eq!(store.ids_with_tag(ObjectId::new(1), &melee), vec![a, c]);
}

#[test]
fn lifecycle_events_report_their_kind() {
    let mut store: AbilityStore<Tags, u32> = AbilityStore::new();
    let ability = store.grant(grant(1));
    let activation = AbilityActivation::new(ability).run(&mut store).unwrap();
    let active = store.get_active_activation(activation).unwrap().clone();
    let event = flexweave::AbilityLifecycleEvent::Started(active);
    assert_eq!(event.lifecycle_event_kind(), LifecycleEventKind::AbilityActivationStarted);
}

#[test]
fn ability_definitions_validate_keys_and_channels() {
    assert_eq!(
        AbilityDefinition::new(String::new(), ()).validate(),
        Err(AbilityDefinitionError::EmptyKey)
    );
    assert_eq!(
        AbilityDefinition::new("a".to_owned(), ()).with_lifecycle_channels(vec![]).validate(),
        Err(AbilityDefinitionError::MissingEmittedChannelKey { key: "a".to_owned() })
    );
    assert_eq!(
        AbilityDefinition::new("a".to_owned(), ())
            .with_lifecycle_channels(vec![String::new()])
            .validate(),
        Err(AbilityDefinitionError::EmptyEmittedChannelKey { key: "a".to_owned() })
    );
    let definition =
        AbilityDefinition::new("a".to_owned(), ()).with_lifecycle_channels(vec!["ch/one".to_owned()]);
    assert_eq!(definition.validate_channels(&["ch/one"]), Ok(()));
    assert_eq!(
        definition.validate_channels(&["ch/two"]),
        Err(AbilityDefinitionError::UnknownEmittedChannelKey {
            key: "a".to_owned(),
            channel_key: "ch/one".to_owned()
        })
    );
    assert_eq!(
        AbilityDefinitions::new(vec![
            AbilityDefinition::new("a".to_owned(), ()),
            AbilityDefinition::new("a".to_owned(), ()),
        ]),
        Err(AbilityDefinitionRegistryError::DuplicateKey { key: "a".to_owned() })
    );
}

#[derive(Default)]
struct AskedGate {
    asked: Vec<(u64, u64)>,
}

impl AbilityActivationGate<(), Tags, u32> for AskedGate {
    type Error = &'static str;
    type BlockReason = &'static str;

    fn can_activate(
        &mut self,
        _context: &(),
        attempt: AbilityActivationAttemptView<'_, Tags, u32>,
    ) -> Result<AbilityActivationDecision<&'static str>, &'static str> {
        self.asked.push((attempt.ability_id.get(), attempt.owner_id.get()));
        Err("gate offline")
    }
}

#[derive(Default)]
struct CommitFlags {
    committed: Vec<bool>,
}

impl<'a> AbilityLifecycleListener<Tags, u32> for &'a mut CommitFlags {
    fn on_ability_lifecycle(&mut self, event: AbilityLifecycleEventView<'_, Tags, u32>) {
        if let AbilityLifecycleEventView::Committed(active) = event {
            self.committed.push(active.committed);
        }
    }
}

#[test]
fn gate_error_is_returned_and_the_gate_sees_the_attempt_once() {
    let mut store: AbilityStore<Tags, u32> = AbilityStore::new();
    store.grant(grant(4));
    let ability = store.grant(grant(6));
    let mut gate = AskedGate::default();
    let result = {
        let mut executor = AbilityGateExecutor::new(&mut gate);
        AbilityActivation::new(ability).run_with_executor(&mut store, &(), &mut executor)
    };
    assert_eq!(result, Err(AbilityActivationError::Activation(AbilityBeginError::Gate("gate offline"))));
    assert_eq!(gate.asked, vec![(2, 6)]);
    assert_eq!(store.active_activation_count(), 0);
}

#[test]
fn committed_fact_reports_the_committed_activation() {
    let mut store: AbilityStore<Tags, u32> = AbilityStore::new();
    let ability = store.grant(grant(1));
    let activation = AbilityActivation::new(ability).run(&mut store).unwrap();
    let mut flags = CommitFlags::default();
    {
        let sink = ListenedAbilityLifecycleEvents::new(&mut flags);
        let mut executor = flexweave::ability::hooks::NoAbilityCommitExecutor::new().with_borrowed_events(sink);
        assert_eq!(
            AbilityCommit::new(activation).run_with_executor(&mut store, &mut (), &mut executor),
            Ok(AbilityCommitOutcome::Committed)
        );
    }
    assert_eq!(flags.committed, vec![true]);
}
