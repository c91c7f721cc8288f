//! Authorable effect definitions and validated registries.
use vstd::prelude::*;

use crate::ability::definition::{first_empty_key, has_empty_key};
use crate::clock::{Clock, ClockUnits};
use crate::registry::{DefinitionRegistryEntry, RegistryEntry};
use crate::text::{str_eq, text1, text2, text3};

verus! {

/// Effect definition kind.
#[derive(Clone, Copy, Debug, PartialEq, Eq, Structural)]
pub enum EffectKind {
    Instant,
    Duration,
    Periodic,
    Indefinite,
}

/// Duration or period clock policy.
#[derive(Clone, Copy, Debug, PartialEq, Eq, Structural)]
pub struct EffectClockPolicy {
    pub units: ClockUnits,
}

impl EffectClockPolicy {
    pub fn new(units: ClockUnits) -> (policy: EffectClockPolicy)
        ensures
            policy.units == units,
    {
        EffectClockPolicy { units }
    }

    /// A policy spanning the units `clock` assigns to one `step`.
    pub fn from_clock<C: Clock>(clock: &C, step: C::Step) -> (policy: EffectClockPolicy)
        ensures
            call_ensures(C::units_for, (clock, step), policy.units),
    {
        EffectClockPolicy { units: clock.units_for(step) }
    }
}

/// Named lifecycle and Signal routing keys declared by an effect definition.
///
/// These keys are authoring metadata for validation and caller-owned adapter
/// wiring. `EffectPipeline` emits lifecycle facts through sinks; it does
/// not publish to these channels or project Signal facts automatically.
#[derive(Clone, Debug, PartialEq, Eq)]
pub struct EffectRouting {
    pub requires_lifecycle_channel: bool,
    pub lifecycle_channel_keys: Vec<String>,
    pub signal_channel_keys: Vec<String>,
}

impl Default for EffectRouting {
    fn default() -> (routing: EffectRouting)
        ensures
            !routing.requires_lifecycle_channel,
            routing.lifecycle_channel_keys@.len() == 0,
            routing.signal_channel_keys@.len() == 0,
    {
        EffectRouting {
            requires_lifecycle_channel: false,
            lifecycle_channel_keys: Vec::new(),
            signal_channel_keys: Vec::new(),
        }
    }
}

/// Authorable, reusable effect definition data.
#[derive(Clone, Debug, PartialEq, Eq)]
pub struct EffectDefinition<PayloadSchema = ()> {
    pub key: String,
    pub kind: EffectKind,
    pub duration: Option<EffectClockPolicy>,
    pub period: Option<EffectClockPolicy>,
    pub routing: EffectRouting,
    pub payload_schema: PayloadSchema,
}

/// Authoring-time effect definition validation failures.
#[derive(Clone, Debug, PartialEq, Eq)]
pub enum EffectDefinitionError {
    EmptyKey,
    DurationRequired { key: String },
    DurationNotAllowed { key: String },
    PeriodRequired { key: String },
    PeriodNotAllowed { key: String },
    InvalidDuration { key: String },
    InvalidPeriod { key: String },
    MissingLifecycleChannelKey { key: String },
    EmptyLifecycleChannelKey { key: String },
    EmptySignalChannelKey { key: String },
}

/// Validated effect definition registry failures.
#[derive(Clone, Debug, PartialEq, Eq)]
pub enum EffectDefinitionRegistryError {
    InvalidDefinition { error: EffectDefinitionError },
    DuplicateKey { key: String },
    MissingDefinition { key: String },
}

/// The outcome of checking a duration that `kind`-shaped definitions require.
pub open spec fn required_duration(duration: Option<EffectClockPolicy>, key: String) -> Result<
    (),
    EffectDefinitionError,
> {
    match duration {
        None => Err(EffectDefinitionError::DurationRequired { key }),
        Some(d) => if d.units == 0 {
            Err(EffectDefinitionError::InvalidDuration { key })
        } else {
            Ok(())
        },
    }
}

/// The outcome of checking a period that periodic definitions require.
pub open spec fn required_period(period: Option<EffectClockPolicy>, key: String) -> Result<
    (),
    EffectDefinitionError,
> {
    match period {
        None => Err(EffectDefinitionError::PeriodRequired { key }),
        Some(p) => if p.units == 0 {
            Err(EffectDefinitionError::InvalidPeriod { key })
        } else {
            Ok(())
        },
    }
}

/// The outcome of checking the clock shape `duration`/`period` against `kind`: instant and
/// indefinite effects take neither, duration effects take a nonzero duration only, and periodic
/// effects take a nonzero duration and a nonzero period. The duration is checked first.
pub open spec fn clock_shape(
    kind: EffectKind,
    duration: Option<EffectClockPolicy>,
    period: Option<EffectClockPolicy>,
    key: String,
) -> Result<(), EffectDefinitionError> {
    match kind {
        EffectKind::Instant | EffectKind::Indefinite => if duration is Some {
            Err(EffectDefinitionError::DurationNotAllowed { key })
        } else if period is Some {
            Err(EffectDefinitionError::PeriodNotAllowed { key })
        } else {
            Ok(())
        },
        EffectKind::Duration => if required_duration(duration, key) is Err {
            required_duration(duration, key)
        } else if period is Some {
            Err(EffectDefinitionError::PeriodNotAllowed { key })
        } else {
            Ok(())
        },
        EffectKind::Periodic => if required_duration(duration, key) is Err {
            required_duration(duration, key)
        } else {
            required_period(period, key)
        },
    }
}

impl<PayloadSchema> EffectDefinition<PayloadSchema> {
    /// The outcome of validating this definition's shape.
    pub open spec fn validation(&self) -> Result<(), EffectDefinitionError> {
        if self.key@.len() == 0 {
            Err(EffectDefinitionError::EmptyKey)
        } else if clock_shape(self.kind, self.duration, self.period, self.key) is Err {
            clock_shape(self.kind, self.duration, self.period, self.key)
        } else if self.routing.requires_lifecycle_channel
            && self.routing.lifecycle_channel_keys@.len() == 0 {
            Err(EffectDefinitionError::MissingLifecycleChannelKey { key: self.key })
        } else if has_empty_key(self.routing.lifecycle_channel_keys@) {
            Err(EffectDefinitionError::EmptyLifecycleChannelKey { key: self.key })
        } else if has_empty_key(self.routing.signal_channel_keys@) {
            Err(EffectDefinitionError::EmptySignalChannelKey { key: self.key })
        } else {
            Ok(())
        }
    }

    /// A definition of `kind` with the given clocks and no routing.
    fn shaped(
        key: String,
        kind: EffectKind,
        duration: Option<EffectClockPolicy>,
        period: Option<EffectClockPolicy>,
        payload_schema: PayloadSchema,
    ) -> (definition: Self)
        ensures
            definition.key == key,
            definition.kind == kind,
            definition.duration == duration,
            definition.period == period,
            !definition.routing.requires_lifecycle_channel,
            definition.routing.lifecycle_channel_keys@.len() == 0,
            definition.routing.signal_channel_keys@.len() == 0,
            definition.payload_schema == payload_schema,
    {
        EffectDefinition { key, kind, duration, period, routing: EffectRouting::default(), payload_schema }
    }

    /// Creates an instant effect definition with no routing.
    pub fn instant(key: String, payload_schema: PayloadSchema) -> (definition: Self)
        ensures
            definition.key == key,
            definition.kind == EffectKind::Instant,
            definition.duration is None,
            definition.period is None,
            !definition.routing.requires_lifecycle_channel,
            definition.routing.lifecycle_channel_keys@.len() == 0,
            definition.routing.signal_channel_keys@.len() == 0,
            definition.payload_schema == payload_schema,
    {
        Self::shaped(key, EffectKind::Instant, None, None, payload_schema)
    }

    /// Creates a duration effect definition with no routing.
    pub fn duration(key: String, units: ClockUnits, payload_schema: PayloadSchema) -> (definition:
        Self)
        ensures
            definition.key == key,
            definition.kind == EffectKind::Duration,
            definition.duration == Some(EffectClockPolicy { units }),
            definition.period is None,
            !definition.routing.requires_lifecycle_channel,
            definition.routing.lifecycle_channel_keys@.len() == 0,
            definition.routing.signal_channel_keys@.len() == 0,
            definition.payload_schema == payload_schema,
    {
        Self::shaped(key, EffectKind::Duration, Some(EffectClockPolicy::new(units)), None, payload_schema)
    }

    /// Creates a periodic effect definition with no routing.
    pub fn periodic(
        key: String,
        duration_units: ClockUnits,
        period_units: ClockUnits,
        payload_schema: PayloadSchema,
    ) -> (definition: Self)
        ensures
            definition.key == key,
            definition.kind == EffectKind::Periodic,
            definition.duration == Some(EffectClockPolicy { units: duration_units }),
            definition.period == Some(EffectClockPolicy { units: period_units }),
            !definition.routing.requires_lifecycle_channel,
            definition.routing.lifecycle_channel_keys@.len() == 0,
            definition.routing.signal_channel_keys@.len() == 0,
            definition.payload_schema == payload_schema,
    {
        Self::shaped(
            key,
            EffectKind::Periodic,
            Some(EffectClockPolicy::new(duration_units)),
            Some(EffectClockPolicy::new(period_units)),
            payload_schema,
        )
    }

    /// Creates an indefinite effect definition with no routing.
    pub fn indefinite(key: String, payload_schema: PayloadSchema) -> (definition: Self)
        ensures
            definition.key == key,
            definition.kind == EffectKind::Indefinite,
            definition.duration is None,
            definition.period is None,
            !definition.routing.requires_lifecycle_channel,
            definition.routing.lifecycle_channel_keys@.len() == 0,
            definition.routing.signal_channel_keys@.len() == 0,
            definition.payload_schema == payload_schema,
    {
        Self::shaped(key, EffectKind::Indefinite, None, None, payload_schema)
    }

    pub fn with_routing(self, routing: EffectRouting) -> (definition: Self)
        ensures
            definition == (EffectDefinition { routing, ..self }),
    {
        let mut definition = self;
        definition.routing = routing;
        definition
    }

    /// Marks lifecycle publication as required on `channel_key` metadata.
    ///
    /// This validates that the definition names a lifecycle channel, but caller
    /// code must still publish emitted lifecycle facts to that channel.
    pub fn requiring_lifecycle_channel(self, channel_key: String) -> (definition: Self)
        ensures
            definition.key == self.key,
            definition.kind == self.kind,
            definition.duration == self.duration,
            definition.period == self.period,
            definition.payload_schema == self.payload_schema,
            definition.routing.requires_lifecycle_channel,
            definition.routing.lifecycle_channel_keys@ == self.routing.lifecycle_channel_keys@.push(
                channel_key,
            ),
            definition.routing.signal_channel_keys@ == self.routing.signal_channel_keys@,
    {
        let mut definition = self;
        definition.routing.requires_lifecycle_channel = true;
        definition.routing.lifecycle_channel_keys.push(channel_key);
        definition
    }

    /// Replaces lifecycle channel keys while preserving the lifecycle requirement flag.
    pub fn with_lifecycle_channels(self, channel_keys: Vec<String>) -> (definition: Self)
        ensures
            definition.key == self.key,
            definition.kind == self.kind,
            definition.duration == self.duration,
            definition.period == self.period,
            definition.payload_schema == self.payload_schema,
            definition.routing.requires_lifecycle_channel == self.routing.requires_lifecycle_channel,
            definition.routing.lifecycle_channel_keys@ == channel_keys@,
            definition.routing.signal_channel_keys@ == self.routing.signal_channel_keys@,
    {
        let mut definition = self;
        definition.routing.lifecycle_channel_keys = channel_keys;
        definition
    }

    pub fn with_signal_channels(self, channel_keys: Vec<String>) -> (definition: Self)
        ensures
            definition.key == self.key,
            definition.kind == self.kind,
            definition.duration == self.duration,
            definition.period == self.period,
            definition.payload_schema == self.payload_schema,
            definition.routing.requires_lifecycle_channel == self.routing.requires_lifecycle_channel,
            definition.routing.lifecycle_channel_keys@ == self.routing.lifecycle_channel_keys@,
            definition.routing.signal_channel_keys@ == channel_keys@,
    {
        let mut definition = self;
        definition.routing.signal_channel_keys = channel_keys;
        definition
    }

    /// Validates authorable definition shape before runtime application.
    pub fn validate(&self) -> (result: Result<(), EffectDefinitionError>)
        ensures
            result == self.validation(),
    {
        if self.key.as_str().is_empty() {
            return Err(EffectDefinitionError::EmptyKey);
        }
        match self.validate_clock_shape(self.duration, self.period) {
            Ok(()) => {},
            Err(error) => return Err(error),
        }
        if self.routing.requires_lifecycle_channel && self.routing.lifecycle_channel_keys.len() == 0 {
            return Err(EffectDefinitionError::MissingLifecycleChannelKey { key: self.key.clone() });
        }
        if first_empty_key(&self.routing.lifecycle_channel_keys) {
            return Err(EffectDefinitionError::EmptyLifecycleChannelKey { key: self.key.clone() });
        }
        if first_empty_key(&self.routing.signal_channel_keys) {
            return Err(EffectDefinitionError::EmptySignalChannelKey { key: self.key.clone() });
        }
        Ok(())
    }

    /// Checks a duration/period pair against this definition's kind.
    pub fn validate_clock_shape(
        &self,
        duration: Option<EffectClockPolicy>,
        period: Option<EffectClockPolicy>,
    ) -> (result: Result<(), EffectDefinitionError>)
        ensures
            result == clock_shape(self.kind, duration, period, self.key),
    {
        match self.kind {
            EffectKind::Instant | EffectKind::Indefinite => {
                match self.reject_duration(duration) {
                    Ok(()) => {},
                    Err(error) => return Err(error),
                }
                self.reject_period(period)
            },
            EffectKind::Duration => {
                match self.require_duration(duration) {
                    Ok(_) => {},
                    Err(error) => return Err(error),
                }
                self.reject_period(period)
            },
            EffectKind::Periodic => {
                match self.require_duration(duration) {
                    Ok(_) => {},
                    Err(error) => return Err(error),
                }
                match self.require_period(period) {
                    Ok(_) => Ok(()),
                    Err(error) => Err(error),
                }
            },
        }
    }

    fn require_duration(&self, duration: Option<EffectClockPolicy>) -> (result: Result<
        EffectClockPolicy,
        EffectDefinitionError,
    >)
        ensures
            match result {
                Ok(d) => required_duration(duration, self.key) is Ok && duration == Some(d),
                Err(error) => required_duration(duration, self.key) == Err::<(), EffectDefinitionError>(error),
            },
    {
        match duration {
            None => Err(EffectDefinitionError::DurationRequired { key: self.key.clone() }),
            Some(d) => if d.units == 0 {
                Err(EffectDefinitionError::InvalidDuration { key: self.key.clone() })
            } else {
                Ok(d)
            },
        }
    }

    fn require_period(&self, period: Option<EffectClockPolicy>) -> (result: Result<
        EffectClockPolicy,
        EffectDefinitionError,
    >)
        ensures
            match result {
                Ok(p) => required_period(period, self.key) is Ok && period == Some(p),
                Err(error) => required_period(period, self.key) == Err::<(), EffectDefinitionError>(error),
            },
    {
        match period {
            None => Err(EffectDefinitionError::PeriodRequired { key: self.key.clone() }),
            Some(p) => if p.units == 0 {
                Err(EffectDefinitionError::InvalidPeriod { key: self.key.clone() })
            } else {
                Ok(p)
            },
        }
    }

    fn reject_duration(&self, duration: Option<EffectClockPolicy>) -> (result: Result<
        (),
        EffectDefinitionError,
    >)
        ensures
            result == (if duration is Some {
                Err(EffectDefinitionError::DurationNotAllowed { key: self.key })
            } else {
                Ok(())
            }),
    {
        if duration.is_some() {
            Err(EffectDefinitionError::DurationNotAllowed { key: self.key.clone() })
        } else {
            Ok(())
        }
    }

    fn reject_period(&self, period: Option<EffectClockPolicy>) -> (result: Result<
        (),
        EffectDefinitionError,
    >)
        ensures
            result == (if period is Some {
                Err(EffectDefinitionError::PeriodNotAllowed { key: self.key })
            } else {
                Ok(())
            }),
    {
        if period.is_some() {
            Err(EffectDefinitionError::PeriodNotAllowed { key: self.key.clone() })
        } else {
            Ok(())
        }
    }
}

impl<PayloadSchema> RegistryEntry for EffectDefinition<PayloadSchema> {
    fn key(&self) -> (key: &str)
        ensures
            key@ == self.key@,
    {
        self.key.as_str()
    }
}

/// `copy` and `keys` hold the same keys, in order.
pub open spec fn same_keys(copy: Seq<String>, keys: Seq<String>) -> bool {
    &&& copy.len() == keys.len()
    &&& forall|i: int| 0 <= i < keys.len() ==> (#[trigger] copy[i])@ == keys[i]@
}

/// `copy` carries `definition`'s key, kind, clocks, and routing, and a clone of its payload
/// schema.
pub open spec fn copied_effect_definition<P: Clone>(copy: EffectDefinition<P>, definition: EffectDefinition<P>) -> bool {
    &&& copy.key@ == definition.key@
    &&& copy.kind == definition.kind
    &&& copy.duration == definition.duration
    &&& copy.period == definition.period
    &&& copy.routing.requires_lifecycle_channel == definition.routing.requires_lifecycle_channel
    &&& same_keys(copy.routing.lifecycle_channel_keys@, definition.routing.lifecycle_channel_keys@)
    &&& same_keys(copy.routing.signal_channel_keys@, definition.routing.signal_channel_keys@)
    &&& cloned(definition.payload_schema, copy.payload_schema)
}

impl<PayloadSchema: Clone> DefinitionRegistryEntry for EffectDefinition<PayloadSchema> {
    type Definition = Self;

    /// A copy of this definition.
    fn build_definition(&self) -> (definition: Self)
        ensures
            copied_effect_definition(definition, *self),
    {
        EffectDefinition {
            key: self.key.clone(),
            kind: self.kind,
            duration: self.duration,
            period: self.period,
            routing: EffectRouting {
                requires_lifecycle_channel: self.routing.requires_lifecycle_channel,
                lifecycle_channel_keys: self.routing.lifecycle_channel_keys.clone(),
                signal_channel_keys: self.routing.signal_channel_keys.clone(),
            },
            payload_schema: self.payload_schema.clone(),
        }
    }
}

/// True when some definition in `definitions` has key `key`.
pub open spec fn defines_effect<P>(definitions: Seq<EffectDefinition<P>>, key: Seq<char>) -> bool {
    exists|i: int| 0 <= i < definitions.len() && (#[trigger] definitions[i]).key@ == key
}

/// The position of the first definition in `definitions` with key `key` (meaningful when
/// `defines_effect` holds).
pub open spec fn first_effect_index<P>(definitions: Seq<EffectDefinition<P>>, key: Seq<char>) -> int {
    choose|i: int|
        0 <= i < definitions.len() && (#[trigger] definitions[i]).key@ == key && forall|k: int|
            0 <= k < i ==> (#[trigger] definitions[k]).key@ != key
}

/// The first definition in `definitions` with key `key`.
pub open spec fn effect_definition_for<P>(definitions: Seq<EffectDefinition<P>>, key: Seq<char>) -> EffectDefinition<P> {
    definitions[first_effect_index(definitions, key)]
}

/// Definition keys are distinct.
pub open spec fn unique_effect_keys<P>(definitions: Seq<EffectDefinition<P>>) -> bool {
    forall|i: int, j: int|
        0 <= i < definitions.len() && 0 <= j < definitions.len() && i != j ==> (#[trigger] definitions[i]).key@
            != (#[trigger] definitions[j]).key@
}

/// The definition at `j` is rejected when building a registry: it is invalid, or its key
/// repeats an earlier one.
pub open spec fn effect_entry_rejected<P>(definitions: Seq<EffectDefinition<P>>, j: int) -> bool {
    definitions[j].validation() is Err || defines_effect(definitions.take(j), definitions[j].key@)
}

/// The registry error reported for the rejected definition at `j`.
pub open spec fn effect_entry_error<P>(
    definitions: Seq<EffectDefinition<P>>,
    j: int,
) -> EffectDefinitionRegistryError {
    match definitions[j].validation() {
        Err(error) => EffectDefinitionRegistryError::InvalidDefinition { error },
        Ok(_) => EffectDefinitionRegistryError::DuplicateKey { key: definitions[j].key },
    }
}

/// Finds, below `end`, the first definition with key `key`.
fn find_effect_before<P>(definitions: &Vec<EffectDefinition<P>>, end: usize, key: &str) -> (position: Option<
    usize,
>)
    requires
        end <= definitions@.len(),
    ensures
        match position {
            Some(p) => p < end && definitions@[p as int].key@ == key@ && forall|k: int|
                0 <= k < p ==> (#[trigger] definitions@[k]).key@ != key@,
            None => !defines_effect(definitions@.take(end as int), key@),
        },
{
    let mut index: usize = 0;
    while index < end
        invariant
            end <= definitions@.len(),
            0 <= index <= end,
            forall|k: int| 0 <= k < index ==> (#[trigger] definitions@[k]).key@ != key@,
        decreases end - index,
    {
        if str_eq(definitions[index].key.as_str(), key) {
            return Some(index);
        }
        index = index + 1;
    }
    proof {
        assert forall|k: int| 0 <= k < end implies (#[trigger] definitions@.take(end as int)[k]).key@ != key@ by {
            assert(definitions@.take(end as int)[k] == definitions@[k]);
        }
    }
    None
}

/// Validated effect definitions in deterministic declaration order.
#[derive(Clone, Debug, PartialEq, Eq)]
pub struct EffectDefinitions<PayloadSchema = ()> {
    definitions: Vec<EffectDefinition<PayloadSchema>>,
}

impl<PayloadSchema> EffectDefinitions<PayloadSchema> {
    /// Definitions in declaration order.
    pub closed spec fn view(&self) -> Seq<EffectDefinition<PayloadSchema>> {
        self.definitions@
    }

    /// Builds a validated definition collection and rejects duplicate keys.
    pub fn new(definitions: Vec<EffectDefinition<PayloadSchema>>) -> (result: Result<
        Self,
        EffectDefinitionRegistryError,
    >)
        ensures
            (forall|j: int|
                0 <= j < definitions@.len() ==> !effect_entry_rejected(definitions@, j))
                ==> (result matches Ok(collection) && collection@ == definitions@),
            result is Ok <==> forall|j: int|
                0 <= j < definitions@.len() ==> !effect_entry_rejected(definitions@, j),
            result matches Ok(collection) ==> unique_effect_keys(collection@) && forall|j: int|
                0 <= j < collection@.len() ==> (#[trigger] collection@[j]).validation() is Ok,
            result matches Err(error) ==> exists|j: int|
                0 <= j < definitions@.len() && effect_entry_rejected(definitions@, j) && (forall|k: int|
                    0 <= k < j ==> !effect_entry_rejected(definitions@, k)) && error
                    == effect_entry_error(definitions@, j),
    {
        let mut index: usize = 0;
        while index < definitions.len()
            invariant
                0 <= index <= definitions@.len(),
                forall|k: int| 0 <= k < index ==> !effect_entry_rejected(definitions@, k),
                forall|k: int| 0 <= k < index ==> (#[trigger] definitions@[k]).validation() is Ok,
                unique_effect_keys(definitions@.take(index as int)),
            decreases definitions@.len() - index,
        {
            let ghost prefix = definitions@.take(index as int);
            match definitions[index].validate() {
                Err(error) => {
                    assert(effect_entry_rejected(definitions@, index as int));
                    return Err(EffectDefinitionRegistryError::InvalidDefinition { error });
                },
                Ok(()) => {},
            }
            match find_effect_before(&definitions, index, definitions[index].key.as_str()) {
                Some(p) => {
                    assert(prefix[p as int] == definitions@[p as int]);
                    assert(defines_effect(prefix, definitions@[index as int].key@));
                    assert(effect_entry_rejected(definitions@, index as int));
                    return Err(
                        EffectDefinitionRegistryError::DuplicateKey {
                            key: definitions[index].key.clone(),
                        },
                    );
                },
                None => {},
            }
            proof {
                let next = definitions@.take(index + 1);
                assert(next.drop_last() == prefix);
                assert forall|i: int, j: int|
                    0 <= i < next.len() && 0 <= j < next.len() && i != j
                    implies (#[trigger] next[i]).key@ != (#[trigger] next[j]).key@ by {
                    if i == index as int {
                        assert(prefix[j] == next[j]);
                    } else if j == index as int {
                        assert(prefix[i] == next[i]);
                    } else {
                        assert(prefix[i] == next[i]);
                        assert(prefix[j] == next[j]);
                    }
                }
            }
            index = index + 1;
        }
        proof {
            assert(definitions@.take(definitions@.len() as int) == definitions@);
        }
        Ok(EffectDefinitions { definitions })
    }

    pub fn definitions(&self) -> (definitions: &[EffectDefinition<PayloadSchema>])
        ensures
            definitions@ == self@,
    {
        self.definitions.as_slice()
    }

    pub fn get(&self, key: &str) -> (found: Option<&EffectDefinition<PayloadSchema>>)
        ensures
            match found {
                Some(d) => defines_effect(self@, key@) && d.key@ == key@ && *d
                    == effect_definition_for(self@, key@) && (unique_effect_keys(self@) ==> forall|i: int|
                    0 <= i < self@.len() && (#[trigger] self@[i]).key@ == key@ ==> self@[i] == *d),
                None => !defines_effect(self@, key@),
            },
    {
        proof {
            assert(self.definitions@.take(self.definitions@.len() as int) == self.definitions@);
        }
        match find_effect_before(&self.definitions, self.definitions.len(), key) {
            Some(index) => {
                proof {
                    let defs = self.definitions@;
                    let c = first_effect_index(defs, key@);
                    assert(defs[index as int].key@ == key@);
                    assert(0 <= c < defs.len() && defs[c].key@ == key@ && forall|k: int|
                        0 <= k < c ==> (#[trigger] defs[k]).key@ != key@);
                    if c < index {
                        assert(defs[c].key@ != key@);
                    }
                    if index < c {
                        assert(defs[index as int].key@ != key@);
                    }
                    assert forall|i: int|
                        0 <= i < defs.len() && (#[trigger] defs[i]).key@ == key@ && unique_effect_keys(defs)
                        implies defs[i] == defs[index as int] by {
                        if i != index as int {
                            assert(defs[i].key@ != defs[index as int].key@);
                        }
                    }
                }
                Some(&self.definitions[index])
            },
            None => None,
        }
    }

    pub fn require(&self, key: &str) -> (result: Result<
        &EffectDefinition<PayloadSchema>,
        EffectDefinitionRegistryError,
    >)
        ensures
            match result {
                Ok(d) => defines_effect(self@, key@) && d.key@ == key@ && *d
                    == effect_definition_for(self@, key@) && (unique_effect_keys(self@) ==> forall|i: int|
                    0 <= i < self@.len() && (#[trigger] self@[i]).key@ == key@ ==> self@[i] == *d),
                Err(error) => !defines_effect(self@, key@) && (error matches EffectDefinitionRegistryError::MissingDefinition {
                    key: k,
                } && k@ == key@),
            },
    {
        match self.get(key) {
            Some(d) => Ok(d),
            None => Err(EffectDefinitionRegistryError::MissingDefinition { key: key.to_owned() }),
        }
    }
}

impl EffectDefinitionError {
    /// The human-readable description of this error.
    pub open spec fn message_view(&self) -> Seq<char> {
        match *self {
            EffectDefinitionError::EmptyKey => "effect definition key is empty"@,
            EffectDefinitionError::DurationRequired { key } => "effect definition `"@ + key@ + "` requires a duration"@,
            EffectDefinitionError::DurationNotAllowed { key } => "effect definition `"@ + key@ + "` must not define a duration"@,
            EffectDefinitionError::PeriodRequired { key } => "effect definition `"@ + key@ + "` requires a period"@,
            EffectDefinitionError::PeriodNotAllowed { key } => "effect definition `"@ + key@ + "` must not define a period"@,
            EffectDefinitionError::InvalidDuration { key } => "effect definition `"@ + key@ + "` has an invalid duration"@,
            EffectDefinitionError::InvalidPeriod { key } => "effect definition `"@ + key@ + "` has an invalid period"@,
            EffectDefinitionError::MissingLifecycleChannelKey { key } => "effect definition `"@ + key@ + "` requires a lifecycle channel key"@,
            EffectDefinitionError::EmptyLifecycleChannelKey { key } => "effect definition `"@ + key@ + "` has an empty lifecycle channel key"@,
            EffectDefinitionError::EmptySignalChannelKey { key } => "effect definition `"@ + key@ + "` has an empty signal channel key"@,
        }
    }

    /// Describes this error for people.
    pub fn message(&self) -> (text: String)
        ensures
            text@ == self.message_view(),
    {
        match self {
            EffectDefinitionError::EmptyKey => text1("effect definition key is empty"),
            EffectDefinitionError::DurationRequired { key } => text3("effect definition `", key.as_str(), "` requires a duration"),
            EffectDefinitionError::DurationNotAllowed { key } => text3("effect definition `", key.as_str(), "` must not define a duration"),
            EffectDefinitionError::PeriodRequired { key } => text3("effect definition `", key.as_str(), "` requires a period"),
            EffectDefinitionError::PeriodNotAllowed { key } => text3("effect definition `", key.as_str(), "` must not define a period"),
            EffectDefinitionError::InvalidDuration { key } => text3("effect definition `", key.as_str(), "` has an invalid duration"),
            EffectDefinitionError::InvalidPeriod { key } => text3("effect definition `", key.as_str(), "` has an invalid period"),
            EffectDefinitionError::MissingLifecycleChannelKey { key } => text3("effect definition `", key.as_str(), "` requires a lifecycle channel key"),
            EffectDefinitionError::EmptyLifecycleChannelKey { key } => text3("effect definition `", key.as_str(), "` has an empty lifecycle channel key"),
            EffectDefinitionError::EmptySignalChannelKey { key } => text3("effect definition `", key.as_str(), "` has an empty signal channel key"),
        }
    }
}

impl EffectDefinitionRegistryError {
    /// The human-readable description of this error.
    pub open spec fn message_view(&self) -> Seq<char> {
        match *self {
            EffectDefinitionRegistryError::InvalidDefinition { error } => "invalid effect definition: "@ + error.message_view(),
            EffectDefinitionRegistryError::DuplicateKey { key } => "effect definition `"@ + key@ + "` is defined more than once"@,
            EffectDefinitionRegistryError::MissingDefinition { key } => "effect definition `"@ + key@ + "` is not registered"@,
        }
    }

    /// Describes this error for people.
    pub fn message(&self) -> (text: String)
        ensures
            text@ == self.message_view(),
    {
        match self {
            EffectDefinitionRegistryError::InvalidDefinition { error } => { let inner = error.message(); text2("invalid effect definition: ", inner.as_str()) },
            EffectDefinitionRegistryError::DuplicateKey { key } => text3("effect definition `", key.as_str(), "` is defined more than once"),
            EffectDefinitionRegistryError::MissingDefinition { key } => text3("effect definition `", key.as_str(), "` is not registered"),
        }
    }
}

} // verus!
