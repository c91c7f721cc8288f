//! Authorable ability definition metadata and validated registries.
use vstd::prelude::*;

use crate::registry::{DefinitionRegistryEntry, RegistryEntry};
use crate::text::{str_eq, text1, text2, text3, text5};

verus! {

/// True when `known` lists a channel whose name is `key`.
pub open spec fn known_channel(known: Seq<&str>, key: Seq<char>) -> bool {
    exists|i: int| 0 <= i < known.len() && (#[trigger] known[i])@ == key
}

/// True when some key of `keys` is empty.
pub open spec fn has_empty_key(keys: Seq<String>) -> bool {
    exists|i: int| 0 <= i < keys.len() && (#[trigger] keys[i])@.len() == 0
}

/// Whether `known` lists `name`.
pub fn known_contains(known: &[&str], name: &str) -> (found: bool)
    ensures
        found == known_channel(known@, name@),
{
    let mut index: usize = 0;
    while index < known.len()
        invariant
            0 <= index <= known@.len(),
            forall|k: int| 0 <= k < index ==> (#[trigger] known@[k])@ != name@,
        decreases known@.len() - index,
    {
        if str_eq(known[index], name) {
            return true;
        }
        index = index + 1;
    }
    false
}

/// Finds the first empty key.
pub(crate) fn first_empty_key(keys: &Vec<String>) -> (found: bool)
    ensures
        found == has_empty_key(keys@),
{
    let mut index: usize = 0;
    while index < keys.len()
        invariant
            0 <= index <= keys@.len(),
            forall|k: int| 0 <= k < index ==> (#[trigger] keys@[k])@.len() != 0,
        decreases keys@.len() - index,
    {
        if keys[index].as_str().is_empty() {
            return true;
        }
        index = index + 1;
    }
    false
}

/// Authorable ability definition metadata.
///
/// `emitted_channel_keys` are metadata for validation and caller-owned adapter
/// wiring; activation does not publish to channels on its own.
#[derive(Clone, Debug, PartialEq, Eq)]
pub struct AbilityDefinition<PayloadSchema = ()> {
    pub key: String,
    pub emits_lifecycle: bool,
    pub emitted_channel_keys: Vec<String>,
    pub payload_schema: PayloadSchema,
}

/// Ability definition validation failures.
#[derive(Clone, Debug, PartialEq, Eq)]
pub enum AbilityDefinitionError {
    EmptyKey,
    MissingEmittedChannelKey { key: String },
    EmptyEmittedChannelKey { key: String },
    UnknownEmittedChannelKey { key: String, channel_key: String },
}

/// Validated ability definition registry failures.
#[derive(Clone, Debug, PartialEq, Eq)]
pub enum AbilityDefinitionRegistryError {
    InvalidDefinition { error: AbilityDefinitionError },
    DuplicateKey { key: String },
    MissingDefinition { key: String },
}

impl<PayloadSchema> AbilityDefinition<PayloadSchema> {
    /// The outcome of validating this definition's shape.
    pub open spec fn validation(&self) -> Result<(), AbilityDefinitionError> {
        if self.key@.len() == 0 {
            Err(AbilityDefinitionError::EmptyKey)
        } else if self.emits_lifecycle && self.emitted_channel_keys@.len() == 0 {
            Err(AbilityDefinitionError::MissingEmittedChannelKey { key: self.key })
        } else if has_empty_key(self.emitted_channel_keys@) {
            Err(AbilityDefinitionError::EmptyEmittedChannelKey { key: self.key })
        } else {
            Ok(())
        }
    }

    /// Creates ability definition metadata with no routing metadata.
    pub fn new(key: String, payload_schema: PayloadSchema) -> (definition: Self)
        ensures
            definition.key == key,
            !definition.emits_lifecycle,
            definition.emitted_channel_keys@.len() == 0,
            definition.payload_schema == payload_schema,
    {
        AbilityDefinition {
            key,
            emits_lifecycle: false,
            emitted_channel_keys: Vec::new(),
            payload_schema,
        }
    }

    /// Enables lifecycle publication metadata and replaces emitted channel keys.
    pub fn with_lifecycle_channels(self, channel_keys: Vec<String>) -> (definition: Self)
        ensures
            definition.key == self.key,
            definition.emits_lifecycle,
            definition.emitted_channel_keys@ == channel_keys@,
            definition.payload_schema == self.payload_schema,
    {
        let mut definition = self;
        definition.emits_lifecycle = true;
        definition.emitted_channel_keys = channel_keys;
        definition
    }

    /// Validates authorable ability metadata before granting or activation.
    pub fn validate(&self) -> (result: Result<(), AbilityDefinitionError>)
        ensures
            result == self.validation(),
    {
        if self.key.as_str().is_empty() {
            return Err(AbilityDefinitionError::EmptyKey);
        }
        if self.emits_lifecycle && self.emitted_channel_keys.len() == 0 {
            return Err(AbilityDefinitionError::MissingEmittedChannelKey { key: self.key.clone() });
        }
        if first_empty_key(&self.emitted_channel_keys) {
            return Err(AbilityDefinitionError::EmptyEmittedChannelKey { key: self.key.clone() });
        }
        Ok(())
    }

    /// Validates emitted channel references against caller-provided channel keys.
    pub fn validate_channels(&self, known_channels: &[&str]) -> (result: Result<
        (),
        AbilityDefinitionError,
    >)
        ensures
            result is Ok <==> forall|j: int|
                0 <= j < self.emitted_channel_keys@.len() ==> known_channel(
                    known_channels@,
                    (#[trigger] self.emitted_channel_keys@[j])@,
                ),
            result is Err ==> exists|j: int|
                0 <= j < self.emitted_channel_keys@.len() && !known_channel(
                    known_channels@,
                    self.emitted_channel_keys@[j]@,
                ) && (forall|k: int|
                    0 <= k < j ==> known_channel(
                        known_channels@,
                        (#[trigger] self.emitted_channel_keys@[k])@,
                    )) && result == Err::<(), AbilityDefinitionError>(
                    AbilityDefinitionError::UnknownEmittedChannelKey {
                        key: self.key,
                        channel_key: self.emitted_channel_keys@[j],
                    },
                ),
    {
        let mut index: usize = 0;
        while index < self.emitted_channel_keys.len()
            invariant
                0 <= index <= self.emitted_channel_keys@.len(),
                forall|k: int|
                    0 <= k < index ==> known_channel(
                        known_channels@,
                        (#[trigger] self.emitted_channel_keys@[k])@,
                    ),
            decreases self.emitted_channel_keys@.len() - index,
        {
            if !known_contains(known_channels, self.emitted_channel_keys[index].as_str()) {
                return Err(
                    AbilityDefinitionError::UnknownEmittedChannelKey {
                        key: self.key.clone(),
                        channel_key: self.emitted_channel_keys[index].clone(),
                    },
                );
            }
            index = index + 1;
        }
        Ok(())
    }
}

impl<PayloadSchema> RegistryEntry for AbilityDefinition<PayloadSchema> {
    fn key(&self) -> (key: &str)
        ensures
            key@ == self.key@,
    {
        self.key.as_str()
    }
}

/// `copy` carries `definition`'s key, lifecycle flag, and channel keys, and a clone of its
/// payload schema.
pub open spec fn copied_ability_definition<P: Clone>(
    copy: AbilityDefinition<P>,
    definition: AbilityDefinition<P>,
) -> bool {
    &&& copy.key@ == definition.key@
    &&& copy.emits_lifecycle == definition.emits_lifecycle
    &&& copy.emitted_channel_keys@.len() == definition.emitted_channel_keys@.len()
    &&& forall|i: int|
        0 <= i < definition.emitted_channel_keys@.len() ==> (#[trigger] copy.emitted_channel_keys@[i])@
            == definition.emitted_channel_keys@[i]@
    &&& cloned(definition.payload_schema, copy.payload_schema)
}

impl<PayloadSchema: Clone> DefinitionRegistryEntry for AbilityDefinition<PayloadSchema> {
    type Definition = Self;

    /// A copy of this definition.
    fn build_definition(&self) -> (definition: Self)
        ensures
            copied_ability_definition(definition, *self),
    {
        AbilityDefinition {
            key: self.key.clone(),
            emits_lifecycle: self.emits_lifecycle,
            emitted_channel_keys: self.emitted_channel_keys.clone(),
            payload_schema: self.payload_schema.clone(),
        }
    }
}

/// True when some definition in `definitions` has key `key`.
pub open spec fn defines_ability<P>(definitions: Seq<AbilityDefinition<P>>, key: Seq<char>) -> bool {
    exists|i: int| 0 <= i < definitions.len() && (#[trigger] definitions[i]).key@ == key
}

/// Definition keys are distinct.
pub open spec fn unique_ability_keys<P>(definitions: Seq<AbilityDefinition<P>>) -> bool {
    forall|i: int, j: int|
        0 <= i < definitions.len() && 0 <= j < definitions.len() && i != j ==> (#[trigger] definitions[i]).key@
            != (#[trigger] definitions[j]).key@
}

/// The definition at `j` is rejected when building a registry: it is invalid, or its key
/// repeats an earlier one.
pub open spec fn ability_entry_rejected<P>(definitions: Seq<AbilityDefinition<P>>, j: int) -> bool {
    definitions[j].validation() is Err || defines_ability(definitions.take(j), definitions[j].key@)
}

/// The registry error reported for the rejected definition at `j`.
pub open spec fn ability_entry_error<P>(
    definitions: Seq<AbilityDefinition<P>>,
    j: int,
) -> AbilityDefinitionRegistryError {
    match definitions[j].validation() {
        Err(error) => AbilityDefinitionRegistryError::InvalidDefinition { error },
        Ok(_) => AbilityDefinitionRegistryError::DuplicateKey { key: definitions[j].key },
    }
}

/// Finds, below `end`, the first definition with key `key`.
fn find_ability_before<P>(definitions: &Vec<AbilityDefinition<P>>, end: usize, key: &str) -> (position: Option<
    usize,
>)
    requires
        end <= definitions@.len(),
    ensures
        match position {
            Some(p) => p < end && definitions@[p as int].key@ == key@ && forall|k: int|
                0 <= k < p ==> (#[trigger] definitions@[k]).key@ != key@,
            None => !defines_ability(definitions@.take(end as int), key@),
        },
{
    let mut index: usize = 0;
    while index < end
        invariant
            end <= definitions@.len(),
            0 <= index <= end,
            forall|k: int| 0 <= k < index ==> (#[trigger] definitions@[k]).key@ != key@,
        decreases end - index,
    {
        if str_eq(definitions[index].key.as_str(), key) {
            return Some(index);
        }
        index = index + 1;
    }
    proof {
        assert forall|k: int| 0 <= k < end implies (#[trigger] definitions@.take(end as int)[k]).key@ != key@ by {
            assert(definitions@.take(end as int)[k] == definitions@[k]);
        }
    }
    None
}

/// Validated ability definitions in deterministic declaration order.
#[derive(Clone, Debug, PartialEq, Eq)]
pub struct AbilityDefinitions<PayloadSchema = ()> {
    definitions: Vec<AbilityDefinition<PayloadSchema>>,
}

impl<PayloadSchema> AbilityDefinitions<PayloadSchema> {
    /// Definitions in declaration order.
    pub closed spec fn view(&self) -> Seq<AbilityDefinition<PayloadSchema>> {
        self.definitions@
    }

    /// Builds a validated definition collection and rejects duplicate keys.
    pub fn new(definitions: Vec<AbilityDefinition<PayloadSchema>>) -> (result: Result<
        Self,
        AbilityDefinitionRegistryError,
    >)
        ensures
            (forall|j: int|
                0 <= j < definitions@.len() ==> !ability_entry_rejected(definitions@, j))
                ==> (result matches Ok(collection) && collection@ == definitions@),
            result is Ok <==> forall|j: int|
                0 <= j < definitions@.len() ==> !ability_entry_rejected(definitions@, j),
            result matches Ok(collection) ==> unique_ability_keys(collection@) && forall|j: int|
                0 <= j < collection@.len() ==> (#[trigger] collection@[j]).validation() is Ok,
            result matches Err(error) ==> exists|j: int|
                0 <= j < definitions@.len() && ability_entry_rejected(definitions@, j) && (forall|k: int|
                    0 <= k < j ==> !ability_entry_rejected(definitions@, k)) && error
                    == ability_entry_error(definitions@, j),
    {
        let mut index: usize = 0;
        while index < definitions.len()
            invariant
                0 <= index <= definitions@.len(),
                forall|k: int| 0 <= k < index ==> !ability_entry_rejected(definitions@, k),
                forall|k: int| 0 <= k < index ==> (#[trigger] definitions@[k]).validation() is Ok,
                unique_ability_keys(definitions@.take(index as int)),
            decreases definitions@.len() - index,
        {
            let ghost prefix = definitions@.take(index as int);
            match definitions[index].validate() {
                Err(error) => {
                    assert(ability_entry_rejected(definitions@, index as int));
                    return Err(AbilityDefinitionRegistryError::InvalidDefinition { error });
                },
                Ok(()) => {},
            }
            match find_ability_before(&definitions, index, definitions[index].key.as_str()) {
                Some(p) => {
                    assert(prefix[p as int] == definitions@[p as int]);
                    assert(defines_ability(prefix, definitions@[index as int].key@));
                    assert(ability_entry_rejected(definitions@, index as int));
                    return Err(
                        AbilityDefinitionRegistryError::DuplicateKey {
                            key: definitions[index].key.clone(),
                        },
                    );
                },
                None => {},
            }
            proof {
                let next = definitions@.take(index + 1);
                assert(next.drop_last() == prefix);
                assert forall|i: int, j: int|
                    0 <= i < next.len() && 0 <= j < next.len() && i != j
                    implies (#[trigger] next[i]).key@ != (#[trigger] next[j]).key@ by {
                    if i == index as int {
                        assert(prefix[j] == next[j]);
                    } else if j == index as int {
                        assert(prefix[i] == next[i]);
                    } else {
                        assert(prefix[i] == next[i]);
                        assert(prefix[j] == next[j]);
                    }
                }
            }
            index = index + 1;
        }
        proof {
            assert(definitions@.take(definitions@.len() as int) == definitions@);
        }
        Ok(AbilityDefinitions { definitions })
    }

    pub fn definitions(&self) -> (definitions: &[AbilityDefinition<PayloadSchema>])
        ensures
            definitions@ == self@,
    {
        self.definitions.as_slice()
    }

    pub fn get(&self, key: &str) -> (found: Option<&AbilityDefinition<PayloadSchema>>)
        ensures
            match found {
                Some(d) => defines_ability(self@, key@) && d.key@ == key@ && self@.contains(*d) && (
                unique_ability_keys(self@) ==> forall|i: int|
                    0 <= i < self@.len() && (#[trigger] self@[i]).key@ == key@ ==> self@[i] == *d),
                None => !defines_ability(self@, key@),
            },
    {
        proof {
            assert(self.definitions@.take(self.definitions@.len() as int) == self.definitions@);
        }
        match find_ability_before(&self.definitions, self.definitions.len(), key) {
            Some(index) => {
                proof {
                    let defs = self.definitions@;
                    assert forall|i: int|
                        0 <= i < defs.len() && (#[trigger] defs[i]).key@ == key@ && unique_ability_keys(defs)
                        implies defs[i] == defs[index as int] by {
                        if i != index as int {
                            assert(defs[i].key@ != defs[index as int].key@);
                        }
                    }
                }
                Some(&self.definitions[index])
            },
            None => None,
        }
    }

    pub fn require(&self, key: &str) -> (result: Result<
        &AbilityDefinition<PayloadSchema>,
        AbilityDefinitionRegistryError,
    >)
        ensures
            match result {
                Ok(d) => defines_ability(self@, key@) && d.key@ == key@ && self@.contains(*d) && (
                unique_ability_keys(self@) ==> forall|i: int|
                    0 <= i < self@.len() && (#[trigger] self@[i]).key@ == key@ ==> self@[i] == *d),
                Err(error) => !defines_ability(self@, key@) && (error matches AbilityDefinitionRegistryError::MissingDefinition {
                    key: k,
                } && k@ == key@),
            },
    {
        match self.get(key) {
            Some(d) => Ok(d),
            None => Err(AbilityDefinitionRegistryError::MissingDefinition { key: key.to_owned() }),
        }
    }

    /// Validates emitted channel references of every definition, in declaration order.
    pub fn validate_channels(&self, known_channels: &[&str]) -> (result: Result<
        (),
        AbilityDefinitionError,
    >)
        ensures
            result is Ok <==> forall|i: int, j: int|
                0 <= i < self@.len() && 0 <= j < self@[i].emitted_channel_keys@.len()
                    ==> known_channel(known_channels@, (#[trigger] self@[i].emitted_channel_keys@[j])@),
    {
        let mut index: usize = 0;
        while index < self.definitions.len()
            invariant
                0 <= index <= self.definitions@.len(),
                forall|i: int, j: int|
                    0 <= i < index && 0 <= j < self.definitions@[i].emitted_channel_keys@.len()
                        ==> known_channel(
                        known_channels@,
                        (#[trigger] self.definitions@[i].emitted_channel_keys@[j])@,
                    ),
            decreases self.definitions@.len() - index,
        {
            match self.definitions[index].validate_channels(known_channels) {
                Ok(()) => {},
                Err(error) => {
                    proof {
                        let d = self.definitions@[index as int];
                        let j = choose|j: int|
                            0 <= j < d.emitted_channel_keys@.len() && !known_channel(
                                known_channels@,
                                d.emitted_channel_keys@[j]@,
                            );
                        assert(!known_channel(known_channels@, self@[index as int].emitted_channel_keys@[j]@));
                    }
                    return Err(error);
                },
            }
            index = index + 1;
        }
        Ok(())
    }
}

impl AbilityDefinitionError {
    /// The human-readable description of this error.
    pub open spec fn message_view(&self) -> Seq<char> {
        match *self {
            AbilityDefinitionError::EmptyKey => "ability definition key is empty"@,
            AbilityDefinitionError::MissingEmittedChannelKey { key } => "ability definition `"@ + key@ + "` emits lifecycle but has no emitted channel keys"@,
            AbilityDefinitionError::EmptyEmittedChannelKey { key } => "ability definition `"@ + key@ + "` has an empty emitted channel key"@,
            AbilityDefinitionError::UnknownEmittedChannelKey { key, channel_key } => "ability definition `"@ + key@ + "` references unknown emitted channel `"@ + channel_key@ + "`"@,
        }
    }

    /// Describes this error for people.
    pub fn message(&self) -> (text: String)
        ensures
            text@ == self.message_view(),
    {
        match self {
            AbilityDefinitionError::EmptyKey => text1("ability definition key is empty"),
            AbilityDefinitionError::MissingEmittedChannelKey { key } => text3("ability definition `", key.as_str(), "` emits lifecycle but has no emitted channel keys"),
            AbilityDefinitionError::EmptyEmittedChannelKey { key } => text3("ability definition `", key.as_str(), "` has an empty emitted channel key"),
            AbilityDefinitionError::UnknownEmittedChannelKey { key, channel_key } => text5("ability definition `", key.as_str(), "` references unknown emitted channel `", channel_key.as_str(), "`"),
        }
    }
}

impl AbilityDefinitionRegistryError {
    /// The human-readable description of this error.
    pub open spec fn message_view(&self) -> Seq<char> {
        match *self {
            AbilityDefinitionRegistryError::InvalidDefinition { error } => "invalid ability definition: "@ + error.message_view(),
            AbilityDefinitionRegistryError::DuplicateKey { key } => "ability definition `"@ + key@ + "` is defined more than once"@,
            AbilityDefinitionRegistryError::MissingDefinition { key } => "ability definition `"@ + key@ + "` is not registered"@,
        }
    }

    /// Describes this error for people.
    pub fn message(&self) -> (text: String)
        ensures
            text@ == self.message_view(),
    {
        match self {
            AbilityDefinitionRegistryError::InvalidDefinition { error } => { let inner = error.message(); text2("invalid ability definition: ", inner.as_str()) },
            AbilityDefinitionRegistryError::DuplicateKey { key } => text3("ability definition `", key.as_str(), "` is defined more than once"),
            AbilityDefinitionRegistryError::MissingDefinition { key } => text3("ability definition `", key.as_str(), "` is not registered"),
        }
    }
}

} // verus!
