use flexweave::query::{collect_where, require_attached, require_object};
use flexweave::{
    AttributeModel, Clock, CoreError, DataStore, DerivedAttributeRefresh, EffectClockPolicy,
    EventChannelDefinition, EventChannelDefinitionError, EventChannelDefinitions,
    EventChannelRouteDefinition, FixedStepClock, LifecycleEventKind, MechanicsTick,
    ObjectDestroy, ObjectId, ObjectStore, RealtimeClock, RealtimeClockAccumulator, Registry,
    RegistryEntry, Tag, TagSet, TagSetQuery, AbilityDefinition, EffectDefinition,
    AttributeOperation, AttributeOperationContext,
};
use std::time::Duration;

#[test]
fn object_ids_are_allocated_in_order_and_never_reused() {
    let mut objects = ObjectStore::new();
    let a = objects.create();
    let b = objects.create();
    assert_eq!((a.get(), b.get()), (1, 2));
    assert_eq!(objects.destroy(a), Ok(a));
    assert!(!objects.is_live(a));
    assert_eq!(objects.destroy(a), Err(CoreError::InvalidObjectId));
    let c = objects.create();
    assert_eq!(c.get(), 3);
    assert_ne!(c, a);
    assert_eq!(objects.iter(), &[b, c]);
    assert_eq!(objects.count(), 2);
    assert!(!objects.is_empty());
}

#[test]
fn registering_external_ids_checks_them() {
    let mut objects = ObjectStore::new();
    assert_eq!(objects.create_with_id(ObjectId::new(0)), Err(CoreError::InvalidObjectId));
    assert_eq!(objects.create_with_id(ObjectId::new(10)), Ok(ObjectId::new(10)));
    assert_eq!(objects.create_with_id(ObjectId::new(10)), Err(CoreError::ObjectIdAlreadyExists));
    assert_eq!(objects.create().get(), 11);
    assert!(ObjectId::invalid().is_invalid());
}

#[test]
fn data_store_attaches_and_detaches_in_order() {
    let mut store = DataStore::new();
    store.attach(ObjectId::new(2), "two");
    store.attach(ObjectId::new(1), "one");
    store.attach(ObjectId::new(2), "deux");
    assert_eq!(store.count(), 2);
    assert_eq!(store.get(ObjectId::new(2)), Some(&"deux"));
    assert!(store.detach(ObjectId::new(2)));
    assert!(!store.detach(ObjectId::new(2)));
    assert!(!store.has(ObjectId::new(2)));
    assert!(store.has(ObjectId::new(1)));
    assert_eq!(require_attached(&store, ObjectId::new(1)), Ok(&"one"));
    assert_eq!(require_attached(&store, ObjectId::new(3)), Err(CoreError::MissingRequiredData));
}

#[test]
fn queries_follow_creation_order() {
    let mut objects = ObjectStore::new();
    let ids: Vec<ObjectId> = (0..5).map(|_| objects.create()).collect();
    assert_eq!(require_object(&objects, ids[0]), Ok(()));
    assert_eq!(require_object(&objects, ObjectId::new(77)), Err(CoreError::InvalidObjectId));
    let even = collect_where(&objects, |id: ObjectId| id.get() % 2 == 0);
    assert_eq!(even, vec![ids[1], ids[3]]);
}

#[test]
fn tags_and_queries_match_exact_paths() {
    let fire = Tag::new(vec!["element", "fire"]);
    let ice = Tag::new(vec!["element", "ice"]);
    let set = TagSet::new(vec![fire.clone(), Tag::new(vec!["status", "burning"])]);
    assert!(set.has(&fire));
    assert!(!set.has(&ice));
    assert!(set.has_atom(&"burning"));
    assert!(set.has_prefix(&Tag::new(vec!["element"])));
    assert!(set.has_tag_with_all_atoms(&["status", "burning"]));
    assert!(!set.has_tag_with_all_atoms(&["fire", "burning"]));
    assert!(fire.starts_with(&Tag::new(vec!["element"])));
    assert!(fire.has_all_atoms(&["fire", "element"]));
    let query = TagSetQuery { all: vec![fire.clone()], any: vec![], none: vec![ice.clone()] };
    assert!(set.matches(&query));
    let query = TagSetQuery { all: vec![], any: vec![ice.clone()], none: vec![] };
    assert!(!set.matches(&query));
}

#[test]
fn fixed_step_clock_scales_and_saturates() {
    let clock = FixedStepClock::new(10);
    assert_eq!(clock.units_for(3), 30);
    assert_eq!(clock.units_for(u64::MAX), u64::MAX);
    assert_eq!(EffectClockPolicy::from_clock(&clock, 2).units, 20);
    assert_eq!(MechanicsTick::from_clock(&clock, 4).elapsed_units(), 40);
}

#[test]
fn realtime_clock_floors_fractional_units() {
    let clock = RealtimeClock::new(60);
    assert_eq!(clock.units_for(Duration::from_millis(1000)), 60);
    assert_eq!(clock.units_for(Duration::from_millis(25)), 1);
    assert_eq!(clock.units_for(Duration::from_millis(10)), 0);
}

#[test]
fn accumulator_keeps_fractional_remainders() {
    let mut accumulator = RealtimeClockAccumulator::new(60);
    let mut total = 0;
    for _ in 0..100 {
        total += accumulator.advance(Duration::from_millis(10));
    }
    assert_eq!(total, 60);
    accumulator.reset();
    assert_eq!(accumulator.advance_nanos(8_333_333), 0);
    assert_eq!(accumulator.advance_nanos(8_333_334), 1);
}

#[test]
fn channel_definitions_validate_names_and_kinds() {
    assert_eq!(
        EventChannelDefinition::new(String::new(), vec![LifecycleEventKind::EffectExecuted]),
        Err(EventChannelDefinitionError::EmptyChannelName)
    );
    assert_eq!(
        EventChannelDefinition::new("bad name".to_owned(), vec![LifecycleEventKind::EffectExecuted]),
        Err(EventChannelDefinitionError::InvalidChannelName { channel_name: "bad name".to_owned() })
    );
    assert_eq!(
        EventChannelDefinition::new("effects/all".to_owned(), vec![]),
        Err(EventChannelDefinitionError::EmptyPayloadContract {
            channel_name: "effects/all".to_owned()
        })
    );
    assert_eq!(
        EventChannelDefinition::new(
            "effects/all".to_owned(),
            vec![LifecycleEventKind::EffectExecuted, LifecycleEventKind::EffectExecuted]
        ),
        Err(EventChannelDefinitionError::DuplicatePayloadKind {
            channel_name: "effects/all".to_owned(),
            kind: LifecycleEventKind::EffectExecuted
        })
    );
    let effects = EventChannelDefinition::new(
        "effects/all".to_owned(),
        vec![LifecycleEventKind::EffectExecuted, LifecycleEventKind::EffectExpired],
    )
    .unwrap();
    assert_eq!(effects.name(), "effects/all");
    assert!(effects.accepts(LifecycleEventKind::EffectExpired));
    assert!(!effects.accepts(LifecycleEventKind::AttributeChanged));
    assert_eq!(
        effects.validate_payload_kind(LifecycleEventKind::AttributeChanged),
        Err(EventChannelDefinitionError::PayloadMismatch {
            channel_name: "effects/all".to_owned(),
            kind: LifecycleEventKind::AttributeChanged
        })
    );
    let definitions = EventChannelDefinitions::new(vec![effects.clone()]).unwrap();
    assert_eq!(
        EventChannelDefinitions::new(vec![effects.clone(), effects.clone()]),
        Err(EventChannelDefinitionError::DuplicateChannelDefinition {
            channel_name: "effects/all".to_owned()
        })
    );
    let route = EventChannelRouteDefinition::new(
        "effects/all".to_owned(),
        LifecycleEventKind::EffectExecuted,
    )
    .unwrap();
    assert_eq!(definitions.validate_route(&route), Ok(()));
    let missing =
        EventChannelRouteDefinition::new("effects/none".to_owned(), LifecycleEventKind::EffectExecuted)
            .unwrap();
    assert_eq!(
        definitions.validate_route(&missing),
        Err(EventChannelDefinitionError::MissingChannelDefinition {
            channel_name: "effects/none".to_owned()
        })
    );
}

struct Entry {
    key: String,
    value: u32,
}

impl RegistryEntry for Entry {
    fn key(&self) -> &str {
        &self.key
    }
}

#[test]
fn registry_finds_the_first_matching_entry() {
    let entries = vec![
        Entry { key: "a".to_owned(), value: 1 },
        Entry { key: "b".to_owned(), value: 2 },
        Entry { key: "b".to_owned(), value: 3 },
    ];
    let registry = Registry::new(&entries);
    assert_eq!(registry.entries().len(), 3);
    assert_eq!(registry.lookup_key("b").map(|e| e.value), Some(2));
    assert!(registry.lookup_key("c").is_none());
    assert_eq!(registry.lookup(|e: &Entry| e.value > 2).map(|e| e.value), Some(3));
}

#[test]
fn registry_builds_copies_of_definitions() {
    let abilities = vec![
        AbilityDefinition::new("abilities/slash".to_owned(), 1u8),
        AbilityDefinition::new("abilities/fortify".to_owned(), 2u8)
            .with_lifecycle_channels(vec!["combat".to_owned()]),
    ];
    let registry = Registry::new(&abilities);
    assert_eq!(registry.definition("abilities/fortify"), Some(abilities[1].clone()));
    assert_eq!(registry.definition("abilities/missing"), None);

    let effects = vec![EffectDefinition::periodic("effects/poison".to_owned(), 10, 2, 7u8)];
    let registry = Registry::new(&effects);
    assert_eq!(registry.definition("effects/poison"), Some(effects[0].clone()));
}

struct Damage(u32);

impl AttributeOperation<Vec<u64>, u32, u32> for Damage {
    type Output = u32;
    type Error = &'static str;

    fn apply(&mut self, context: AttributeOperationContext<'_, Vec<u64>, u32, u32>) -> Result<u32, &'static str> {
        if *context.attributes < self.0 {
            return Err("not enough health");
        }
        *context.attributes -= self.0;
        *context.derived += 1;
        context.context.push(context.object_id.get());
        Ok(*context.attributes)
    }
}

#[test]
fn attribute_operation_sees_the_model_and_keeps_its_changes() {
    let mut model = AttributeModel::new(10u32, 0u32);
    let mut log = Vec::new();
    assert_eq!(model.apply_operation(ObjectId::new(4), &mut log, Damage(3)), Ok(7));
    assert_eq!(model.apply_operation(ObjectId::new(5), &mut log, Damage(30)), Err("not enough health"));
    assert_eq!(*model.attributes(), 7);
    assert_eq!(*model.derived(), 1);
    assert_eq!(log, vec![4]);
}

#[test]
fn attribute_model_exposes_its_parts() {
    let mut model = AttributeModel::new(10u32, 3u32);
    *model.attributes_mut() += 5;
    *model.derived_mut() += 1;
    assert_eq!(*model.attributes(), 15);
    assert_eq!(*model.derived(), 4);
    assert_eq!(model.into_parts(), (15, 4));
    let plain = AttributeModel::from_attributes("stats");
    assert_eq!(*plain.attributes(), "stats");
}

#[test]
fn command_builders_keep_their_targets() {
    let refresh = DerivedAttributeRefresh::new(ObjectId::new(4));
    assert_eq!(refresh.target(), ObjectId::new(4));
    assert!(!refresh.is_tracked_only());
    assert!(refresh.tracked_only().is_tracked_only());
    assert!(DerivedAttributeRefresh::of_tracked(ObjectId::new(4)).is_tracked_only());
    assert_eq!(ObjectDestroy::new(ObjectId::new(9)).target(), ObjectId::new(9));
    assert_eq!(MechanicsTick::new(6).elapsed_units(), 6);
}
