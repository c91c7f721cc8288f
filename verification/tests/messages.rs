use flexweave::ability::results::{AbilityBeginError, AbilityCommitError, AbilityEndError, AbilityRollbackError};
use flexweave::{
    AbilityActivationError, AbilityDefinitionError, AbilityDefinitionRegistryError, AbilityError,
    AbilityGrantError, AbilityId, ActiveEffectId, CoreError, EffectApplicationError,
    EffectApplyError, EffectDefinitionError, EffectDefinitionRegistryError,
    EventChannelDefinitionError, EventChannelError, LifecycleEventKind, ObjectId,
    SignalDefinitionError,
};

#[test]
fn core_and_ability_errors_describe_themselves() {
    assert_eq!(CoreError::InvalidObjectId.message(), "invalid object id");
    assert_eq!(CoreError::OutOfMemory.message(), "out of memory");
    assert_eq!(AbilityError::MissingAbility.message(), "missing ability");
    assert_eq!(
        AbilityError::OwnerMismatch {
            expected_owner_id: ObjectId::new(1),
            actual_owner_id: ObjectId::new(2)
        }
        .message(),
        "ability owner mismatch"
    );
    assert_eq!(AbilityEndError::UncommittedActivation.message(), "uncommitted ability activation");
    assert_eq!(
        AbilityRollbackError::AlreadyCommitted.message(),
        "ability activation is already committed"
    );
    assert_eq!(
        AbilityGrantError::InvalidOwner { owner_id: ObjectId::new(3) }.message(),
        "invalid ability grant owner"
    );
    assert_eq!(
        AbilityDefinitionError::UnknownEmittedChannelKey {
            key: "a".to_owned(),
            channel_key: "c".to_owned()
        }
        .message(),
        "ability definition `a` references unknown emitted channel `c`"
    );
    assert_eq!(
        AbilityDefinitionRegistryError::InvalidDefinition { error: AbilityDefinitionError::EmptyKey }
            .message(),
        "invalid ability definition: ability definition key is empty"
    );
}

#[test]
fn generic_errors_embed_caller_text() {
    let blocked: AbilityBeginError<&str, &str> = AbilityBeginError::Blocked("cooldown");
    assert_eq!(blocked.message(), "ability activation blocked: \"cooldown\"");
    let gate: AbilityBeginError<&str, &str> = AbilityBeginError::Gate("offline");
    assert_eq!(gate.message(), "ability activation gate failed: offline");
    let commit: AbilityCommitError<&str> = AbilityCommitError::Action("no mana");
    assert_eq!(commit.message(), "ability commit action failed: no mana");
    let missing: AbilityActivationError<&str, &str> =
        AbilityActivationError::MissingGrantedDefinitionKey { ability_id: AbilityId::new(12) };
    assert_eq!(missing.message(), "ability `12` was not granted from a registered definition");
    let failed: AbilityActivationError<&str, &str> =
        AbilityActivationError::Activation(AbilityBeginError::Ability(AbilityError::MissingAbility));
    assert_eq!(failed.message(), "ability activation failed: missing ability");
    let execution: EffectApplyError<&str, &str> = EffectApplyError::Execution("boom");
    assert_eq!(execution.message(), "effect execution failed: boom");
    let application: EffectApplyError<&str, &str> =
        EffectApplyError::Application(EffectApplicationError::MissingSource);
    assert_eq!(
        application.message(),
        "effect application failed: effect application requires a source"
    );
}

#[test]
fn effect_errors_describe_themselves() {
    assert_eq!(
        EffectDefinitionError::DurationRequired { key: "k".to_owned() }.message(),
        "effect definition `k` requires a duration"
    );
    assert_eq!(EffectDefinitionError::EmptyKey.message(), "effect definition key is empty");
    assert_eq!(
        EffectDefinitionRegistryError::InvalidDefinition { error: EffectDefinitionError::EmptyKey }
            .message(),
        "invalid effect definition: effect definition key is empty"
    );
    assert_eq!(
        EffectDefinitionRegistryError::MissingDefinition { key: "k".to_owned() }.message(),
        "effect definition `k` is not registered"
    );
    assert_eq!(
        EffectApplicationError::Definition(EffectDefinitionError::InvalidPeriod { key: "p".to_owned() })
            .message(),
        "effect definition `p` has an invalid period"
    );
    assert_eq!(
        EffectApplicationError::InvalidTarget { target_id: ObjectId::new(1) }.message(),
        "invalid effect target"
    );
}

#[test]
fn channel_and_signal_errors_describe_themselves() {
    assert_eq!(
        EventChannelDefinitionError::PayloadMismatch {
            channel_name: "effects/all".to_owned(),
            kind: LifecycleEventKind::EffectExecuted
        }
        .message(),
        "event channel `effects/all` does not accept payload kind EffectExecuted"
    );
    assert_eq!(
        EventChannelDefinitionError::EmptyChannelName.message(),
        "event channel name is empty"
    );
    assert_eq!(
        EventChannelError::PayloadMismatch {
            channel_name: "c".to_owned(),
            kind: LifecycleEventKind::AttributeChanged
        }
        .message(),
        "event channel `c` does not accept payload kind AttributeChanged"
    );
    assert_eq!(
        SignalDefinitionError::UnknownChannelKey { key: "s".to_owned(), channel_key: "x".to_owned() }
            .message(),
        "signal definition `s` references unknown channel `x`"
    );
    assert_eq!(
        SignalDefinitionError::MissingCategory { key: "s".to_owned() }.message(),
        "signal definition `s` is missing a category"
    );
}

#[test]
fn ids_print_their_values() {
    assert_eq!(ObjectId::new(42).to_text(), "42");
    assert_eq!(AbilityId::new(0).to_text(), "0");
    assert_eq!(ActiveEffectId::new(1234567).to_text(), "1234567");
    assert_eq!(LifecycleEventKind::SignalReinvoked.name(), "SignalReinvoked");
}
