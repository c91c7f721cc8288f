use flexweave::effect::events::EffectExecution;
use flexweave::{
    ActiveEffectId, EffectInstance, EffectLifecycleEvent, LifecycleEvent, LifecycleEventKind,
    ObjectId, SignalDefinition, SignalDefinitionError, SignalDefinitions, SignalExportPolicy,
    SignalKind, SignalProjection, SignalRemovalReason, SignalRetentionPolicy, SignalTagMatch, Tag,
    TagSet, TagSetQuery,
};

fn definition(key: &str, kind: SignalKind, kinds: Vec<LifecycleEventKind>) -> SignalDefinition<&'static str, u8> {
    SignalDefinition {
        key: key.to_owned(),
        signal_kind: kind,
        lifecycle_event_kinds: kinds,
        tag_match: SignalTagMatch::Any,
        payload_schema: "impact.v1".to_owned(),
        signal_payload: 9,
        channel_key: "signals/effects".to_owned(),
        category: "combat".to_owned(),
        retention: SignalRetentionPolicy::Retain,
        export: SignalExportPolicy::Export,
        debug_label: "impact".to_owned(),
        description: "An effect execution projected for adapters".to_owned(),
    }
}

fn burning() -> TagSet<&'static str> {
    TagSet::new(vec![Tag::new(vec!["status", "burning"])])
}

#[test]
fn executed_effect_projects_to_an_executed_signal() {
    let definitions = SignalDefinitions::new(vec![
        definition("signals/impact", SignalKind::Executed, vec![LifecycleEventKind::EffectExecuted]),
        definition("signals/start", SignalKind::ActiveStart, vec![LifecycleEventKind::EffectActiveCreated]),
    ])
    .unwrap();
    definitions.validate_channels(&["signals/effects"]).unwrap();
    let projection = SignalProjection::new(definitions);
    let event = EffectLifecycleEvent::Executed(EffectExecution {
        active_effect_id: None,
        definition_key: Some("effects/impact".to_owned()),
        source_id: Some(ObjectId::new(1)),
        target_id: ObjectId::new(2),
        tags: burning(),
        payload: 42u32,
        elapsed_units: None,
    });
    let facts = projection.project_effect_event(&event);
    assert_eq!(facts.len(), 1);
    let fact = &facts[0];
    assert_eq!(fact.key, "signals/impact");
    assert_eq!(fact.signal_kind, SignalKind::Executed);
    assert_eq!(fact.channel_key, "signals/effects");
    assert_eq!(fact.source_lifecycle_event_kind, LifecycleEventKind::EffectExecuted);
    assert_eq!(fact.lifecycle_event_kind(), LifecycleEventKind::EffectExecuted);
    assert_eq!(fact.source_definition_key.as_deref(), Some("effects/impact"));
    assert_eq!(fact.target_id, ObjectId::new(2));
    assert_eq!(fact.source_payload, Some(42));
    assert_eq!(fact.signal_payload, 9);
}

#[test]
fn removal_signals_carry_the_reason() {
    let definitions = SignalDefinitions::new(vec![definition(
        "signals/gone",
        SignalKind::Removed,
        vec![LifecycleEventKind::EffectExpired, LifecycleEventKind::EffectRemoved],
    )])
    .unwrap();
    let projection = SignalProjection::new(definitions);
    let effect = EffectInstance {
        id: ActiveEffectId::new(3),
        definition_key: None,
        source_id: None,
        target_id: ObjectId::new(2),
        remaining_units: Some(0),
        period: None,
        period_elapsed_units: 0,
        tags: burning(),
        payload: 1u32,
    };
    let facts = projection.project_effect_event(&EffectLifecycleEvent::Expired(effect.clone()));
    assert_eq!(facts.len(), 1);
    assert_eq!(facts[0].removal_reason, Some(SignalRemovalReason::Expired));
    assert_eq!(facts[0].active_effect_id, Some(ActiveEffectId::new(3)));
    let facts = projection.project_effect_event(&EffectLifecycleEvent::Removed(effect));
    assert_eq!(facts[0].removal_reason, Some(SignalRemovalReason::Removed));
}

#[test]
fn tag_queries_filter_projection() {
    let mut frozen_only =
        definition("signals/frozen", SignalKind::Executed, vec![LifecycleEventKind::EffectExecuted]);
    frozen_only.tag_match = SignalTagMatch::Query(TagSetQuery {
        all: vec![Tag::new(vec!["status", "frozen"])],
        any: vec![],
        none: vec![],
    });
    let projection = SignalProjection::new(SignalDefinitions::new(vec![frozen_only]).unwrap());
    let event = EffectLifecycleEvent::Executed(EffectExecution {
        active_effect_id: None,
        definition_key: None,
        source_id: None,
        target_id: ObjectId::new(2),
        tags: burning(),
        payload: 0u32,
        elapsed_units: None,
    });
    assert!(projection.project_effect_event(&event).is_empty());
}

#[test]
fn reinvocation_only_uses_while_active_definitions_listing_reinvoked() {
    let definitions = SignalDefinitions::new(vec![
        definition("signals/tick", SignalKind::WhileActive, vec![LifecycleEventKind::SignalReinvoked]),
        definition("signals/advance", SignalKind::WhileActive, vec![LifecycleEventKind::EffectAdvanced]),
    ])
    .unwrap();
    let projection = SignalProjection::new(definitions);
    let effects = vec![
        EffectInstance {
            id: ActiveEffectId::new(1),
            definition_key: Some("effects/aura".to_owned()),
            source_id: None,
            target_id: ObjectId::new(5),
            remaining_units: Some(4),
            period: None,
            period_elapsed_units: 0,
            tags: burning(),
            payload: 0u32,
        },
        EffectInstance {
            id: ActiveEffectId::new(2),
            definition_key: None,
            source_id: None,
            target_id: ObjectId::new(6),
            remaining_units: None,
            period: None,
            period_elapsed_units: 0,
            tags: burning(),
            payload: 1u32,
        },
    ];
    let facts = projection.reinvoke_effect_instances(&effects);
    assert_eq!(facts.len(), 2);
    assert_eq!(facts[0].key, "signals/tick");
    assert_eq!(facts[0].active_effect_id, Some(ActiveEffectId::new(1)));
    assert_eq!(facts[0].clock_units, Some(4));
    assert_eq!(facts[1].target_id, ObjectId::new(6));
    assert_eq!(facts[1].source_lifecycle_event_kind, LifecycleEventKind::SignalReinvoked);
}

#[test]
fn signal_definitions_report_each_failure() {
    let base = || definition("s", SignalKind::Executed, vec![LifecycleEventKind::EffectExecuted]);
    let mut d = base();
    d.key = String::new();
    assert_eq!(d.validate(), Err(SignalDefinitionError::EmptyKey));
    let mut d = base();
    d.lifecycle_event_kinds = vec![];
    assert_eq!(d.validate(), Err(SignalDefinitionError::MissingLifecycleEventKinds { key: "s".to_owned() }));
    let mut d = base();
    d.tag_match = SignalTagMatch::Query(TagSetQuery { all: vec![], any: vec![], none: vec![] });
    assert_eq!(d.validate(), Err(SignalDefinitionError::InvalidTagQuery { key: "s".to_owned() }));
    let mut d = base();
    d.payload_schema = String::new();
    assert_eq!(d.validate(), Err(SignalDefinitionError::MissingPayloadSchema { key: "s".to_owned() }));
    let mut d = base();
    d.channel_key = String::new();
    assert_eq!(d.validate(), Err(SignalDefinitionError::MissingChannelKey { key: "s".to_owned() }));
    let mut d = base();
    d.category = String::new();
    assert_eq!(d.validate(), Err(SignalDefinitionError::MissingCategory { key: "s".to_owned() }));
    assert_eq!(
        SignalDefinitions::new(vec![base(), base()]),
        Err(SignalDefinitionError::DuplicateKey { key: "s".to_owned() })
    );
    let definitions = SignalDefinitions::new(vec![base()]).unwrap();
    assert_eq!(
        definitions.validate_channels(&["other"]),
        Err(SignalDefinitionError::UnknownChannelKey {
            key: "s".to_owned(),
            channel_key: "signals/effects".to_owned()
        })
    );
}
