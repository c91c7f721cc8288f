//! Authorable Signal definitions and validated Signal registries.
use vstd::prelude::*;
use vstd::std_specs::cmp::PartialEqSpec;

use crate::ability::definition::{known_channel, known_contains};
use crate::lifecycle::kind::LifecycleEventKind;
use crate::tag::{query_holds, tag_paths, TagSet, TagSetQuery};
use crate::text::{str_eq, text1, text3, text5};

verus! {

/// Signal lifecycle categories emitted by projection.
#[derive(Clone, Copy, Debug, PartialEq, Eq, Structural)]
pub enum SignalKind {
    ActiveStart,
    WhileActive,
    Executed,
    Recurring,
    Removed,
}

/// Signal retention metadata.
///
/// This is authoring/export metadata. It does not configure `EventChannel`
/// retention unless caller code maps it to a channel.
#[derive(Clone, Copy, Debug, PartialEq, Eq, Structural)]
pub enum SignalRetentionPolicy {
    Drop,
    Retain,
}

/// Signal export metadata.
#[derive(Clone, Copy, Debug, PartialEq, Eq, Structural)]
pub enum SignalExportPolicy {
    Internal,
    Export,
}

/// Tag matching policy for a Signal definition.
#[derive(Clone, Debug, PartialEq, Eq)]
pub enum SignalTagMatch<Atom> {
    Any,
    Query(TagSetQuery<Atom>),
}

/// Whether `tag_match` accepts a tag set with paths `paths`.
pub open spec fn tag_match_holds<Atom: PartialEq>(tag_match: SignalTagMatch<Atom>, paths: Seq<Seq<Atom>>) -> bool {
    match tag_match {
        SignalTagMatch::Any => true,
        SignalTagMatch::Query(query) => query_holds(
            paths,
            tag_paths(query.all@),
            tag_paths(query.any@),
            tag_paths(query.none@),
        ),
    }
}

/// A query that names no tag at all is not a valid match policy.
pub open spec fn tag_match_valid<Atom>(tag_match: SignalTagMatch<Atom>) -> bool {
    match tag_match {
        SignalTagMatch::Any => true,
        SignalTagMatch::Query(query) => query.all@.len() != 0 || query.any@.len() != 0
            || query.none@.len() != 0,
    }
}

impl<Atom: PartialEq> SignalTagMatch<Atom> {
    /// Whether this policy accepts `tags`.
    pub fn matches(&self, tags: &TagSet<Atom>) -> (matched: bool)
        ensures
            Atom::obeys_eq_spec() ==> matched == tag_match_holds(*self, tags@),
    {
        match self {
            SignalTagMatch::Any => true,
            SignalTagMatch::Query(query) => tags.matches(query),
        }
    }
}

impl<Atom> SignalTagMatch<Atom> {
    fn is_valid(&self) -> (valid: bool)
        ensures
            valid == tag_match_valid(*self),
    {
        match self {
            SignalTagMatch::Any => true,
            SignalTagMatch::Query(query) => query.all.len() != 0 || query.any.len() != 0
                || query.none.len() != 0,
        }
    }
}

/// Authorable Signal definition data.
///
/// `channel_key` names the caller-owned channel or adapter target that should
/// receive projected facts. The key is metadata and a validation hint; it does
/// not cause automatic routing.
///
/// `lifecycle_event_kinds` is the complete source-kind whitelist for this
/// definition. While-active reinvocation requires
/// `LifecycleEventKind::SignalReinvoked` in this list.
#[derive(Clone, Debug, PartialEq, Eq)]
pub struct SignalDefinition<Atom, PayloadSchema = ()> {
    pub key: String,
    pub signal_kind: SignalKind,
    pub lifecycle_event_kinds: Vec<LifecycleEventKind>,
    pub tag_match: SignalTagMatch<Atom>,
    pub payload_schema: String,
    pub signal_payload: PayloadSchema,
    pub channel_key: String,
    pub category: String,
    pub retention: SignalRetentionPolicy,
    pub export: SignalExportPolicy,
    pub debug_label: String,
    pub description: String,
}

/// Signal definition validation failures.
#[derive(Clone, Debug, PartialEq, Eq)]
pub enum SignalDefinitionError {
    EmptyKey,
    DuplicateKey { key: String },
    MissingLifecycleEventKinds { key: String },
    InvalidTagQuery { key: String },
    MissingPayloadSchema { key: String },
    MissingChannelKey { key: String },
    MissingCategory { key: String },
    UnknownChannelKey { key: String, channel_key: String },
}

impl<Atom, PayloadSchema> SignalDefinition<Atom, PayloadSchema> {
    /// The outcome of validating this definition, checks in declaration order.
    pub open spec fn validation(&self) -> Result<(), SignalDefinitionError> {
        if self.key@.len() == 0 {
            Err(SignalDefinitionError::EmptyKey)
        } else if self.lifecycle_event_kinds@.len() == 0 {
            Err(SignalDefinitionError::MissingLifecycleEventKinds { key: self.key })
        } else if !tag_match_valid(self.tag_match) {
            Err(SignalDefinitionError::InvalidTagQuery { key: self.key })
        } else if self.payload_schema@.len() == 0 {
            Err(SignalDefinitionError::MissingPayloadSchema { key: self.key })
        } else if self.channel_key@.len() == 0 {
            Err(SignalDefinitionError::MissingChannelKey { key: self.key })
        } else if self.category@.len() == 0 {
            Err(SignalDefinitionError::MissingCategory { key: self.key })
        } else {
            Ok(())
        }
    }

    /// Validates one Signal definition.
    pub fn validate(&self) -> (result: Result<(), SignalDefinitionError>)
        ensures
            result == self.validation(),
    {
        if self.key.as_str().is_empty() {
            return Err(SignalDefinitionError::EmptyKey);
        }
        if self.lifecycle_event_kinds.len() == 0 {
            return Err(SignalDefinitionError::MissingLifecycleEventKinds { key: self.key.clone() });
        }
        if !self.tag_match.is_valid() {
            return Err(SignalDefinitionError::InvalidTagQuery { key: self.key.clone() });
        }
        if self.payload_schema.as_str().is_empty() {
            return Err(SignalDefinitionError::MissingPayloadSchema { key: self.key.clone() });
        }
        if self.channel_key.as_str().is_empty() {
            return Err(SignalDefinitionError::MissingChannelKey { key: self.key.clone() });
        }
        if self.category.as_str().is_empty() {
            return Err(SignalDefinitionError::MissingCategory { key: self.key.clone() });
        }
        Ok(())
    }
}

/// True when some definition in `definitions` has key `key`.
pub open spec fn defines_signal<A, P>(definitions: Seq<SignalDefinition<A, P>>, key: Seq<char>) -> bool {
    exists|i: int| 0 <= i < definitions.len() && (#[trigger] definitions[i]).key@ == key
}

/// Definition keys are distinct.
pub open spec fn unique_signal_keys<A, P>(definitions: Seq<SignalDefinition<A, P>>) -> bool {
    forall|i: int, j: int|
        0 <= i < definitions.len() && 0 <= j < definitions.len() && i != j ==> (#[trigger] definitions[i]).key@
            != (#[trigger] definitions[j]).key@
}

/// The definition at `j` is rejected when building a registry: it is invalid, or its key
/// repeats an earlier one.
pub open spec fn signal_entry_rejected<A, P>(definitions: Seq<SignalDefinition<A, P>>, j: int) -> bool {
    definitions[j].validation() is Err || defines_signal(definitions.take(j), definitions[j].key@)
}

/// The error reported for the rejected definition at `j`.
pub open spec fn signal_entry_error<A, P>(definitions: Seq<SignalDefinition<A, P>>, j: int) -> SignalDefinitionError {
    match definitions[j].validation() {
        Err(error) => error,
        Ok(_) => SignalDefinitionError::DuplicateKey { key: definitions[j].key },
    }
}

/// Whether some definition below `end` has key `key`.
fn signal_key_before<A, P>(definitions: &Vec<SignalDefinition<A, P>>, end: usize, key: &str) -> (found: bool)
    requires
        end <= definitions@.len(),
    ensures
        found == defines_signal(definitions@.take(end as int), key@),
{
    let mut index: usize = 0;
    while index < end
        invariant
            end <= definitions@.len(),
            0 <= index <= end,
            forall|k: int| 0 <= k < index ==> (#[trigger] definitions@[k]).key@ != key@,
        decreases end - index,
    {
        if str_eq(definitions[index].key.as_str(), key) {
            assert(definitions@.take(end as int)[index as int] == definitions@[index as int]);
            return true;
        }
        index = index + 1;
    }
    proof {
        assert forall|k: int| 0 <= k < end implies (#[trigger] definitions@.take(end as int)[k]).key@ != key@ by {
            assert(definitions@.take(end as int)[k] == definitions@[k]);
        }
    }
    false
}

/// Validated Signal definitions in deterministic declaration order.
#[derive(Clone, Debug, PartialEq, Eq)]
pub struct SignalDefinitions<Atom, PayloadSchema> {
    definitions: Vec<SignalDefinition<Atom, PayloadSchema>>,
}

impl<Atom, PayloadSchema> SignalDefinitions<Atom, PayloadSchema> {
    /// Definitions in declaration order.
    pub closed spec fn view(&self) -> Seq<SignalDefinition<Atom, PayloadSchema>> {
        self.definitions@
    }

    /// Builds a validated definition collection and rejects duplicate keys.
    pub fn new(definitions: Vec<SignalDefinition<Atom, PayloadSchema>>) -> (result: Result<
        Self,
        SignalDefinitionError,
    >)
        ensures
            (forall|j: int|
                0 <= j < definitions@.len() ==> !signal_entry_rejected(definitions@, j))
                ==> (result matches Ok(collection) && collection@ == definitions@),
            result is Ok <==> forall|j: int|
                0 <= j < definitions@.len() ==> !signal_entry_rejected(definitions@, j),
            result matches Ok(collection) ==> unique_signal_keys(collection@) && forall|j: int|
                0 <= j < collection@.len() ==> (#[trigger] collection@[j]).validation() is Ok,
            result matches Err(error) ==> exists|j: int|
                0 <= j < definitions@.len() && signal_entry_rejected(definitions@, j) && (forall|k: int|
                    0 <= k < j ==> !signal_entry_rejected(definitions@, k)) && error
                    == signal_entry_error(definitions@, j),
    {
        let mut index: usize = 0;
        while index < definitions.len()
            invariant
                0 <= index <= definitions@.len(),
                forall|k: int| 0 <= k < index ==> !signal_entry_rejected(definitions@, k),
                forall|k: int| 0 <= k < index ==> (#[trigger] definitions@[k]).validation() is Ok,
                unique_signal_keys(definitions@.take(index as int)),
            decreases definitions@.len() - index,
        {
            let ghost prefix = definitions@.take(index as int);
            match definitions[index].validate() {
                Err(error) => {
                    assert(signal_entry_rejected(definitions@, index as int));
                    return Err(error);
                },
                Ok(()) => {},
            }
            if signal_key_before(&definitions, index, definitions[index].key.as_str()) {
                assert(signal_entry_rejected(definitions@, index as int));
                return Err(SignalDefinitionError::DuplicateKey { key: definitions[index].key.clone() });
            }
            proof {
                let next = definitions@.take(index + 1);
                assert(next.drop_last() == prefix);
                assert forall|i: int, j: int|
                    0 <= i < next.len() && 0 <= j < next.len() && i != j
                    implies (#[trigger] next[i]).key@ != (#[trigger] next[j]).key@ by {
                    if i == index as int {
                        assert(prefix[j] == next[j]);
                    } else if j == index as int {
                        assert(prefix[i] == next[i]);
                    } else {
                        assert(prefix[i] == next[i]);
                        assert(prefix[j] == next[j]);
                    }
                }
            }
            index = index + 1;
        }
        proof {
            assert(definitions@.take(definitions@.len() as int) == definitions@);
        }
        Ok(SignalDefinitions { definitions })
    }

    pub fn definitions(&self) -> (definitions: &[SignalDefinition<Atom, PayloadSchema>])
        ensures
            definitions@ == self@,
    {
        self.definitions.as_slice()
    }

    /// Validates channel references against caller-provided channel keys.
    ///
    /// Validation proves the declared keys are known. Caller code still owns
    /// projecting facts and publishing them into the matching channel or bus.
    pub fn validate_channels(&self, known_channels: &[&str]) -> (result: Result<(), SignalDefinitionError>)
        ensures
            result is Ok <==> forall|i: int|
                0 <= i < self@.len() ==> known_channel(known_channels@, (#[trigger] self@[i]).channel_key@),
            result is Err ==> exists|i: int|
                0 <= i < self@.len() && !known_channel(known_channels@, self@[i].channel_key@) && (forall|k: int|
                    0 <= k < i ==> known_channel(known_channels@, (#[trigger] self@[k]).channel_key@))
                    && result == Err::<(), SignalDefinitionError>(
                    SignalDefinitionError::UnknownChannelKey {
                        key: self@[i].key,
                        channel_key: self@[i].channel_key,
                    },
                ),
    {
        let mut index: usize = 0;
        while index < self.definitions.len()
            invariant
                0 <= index <= self.definitions@.len(),
                forall|k: int|
                    0 <= k < index ==> known_channel(
                        known_channels@,
                        (#[trigger] self.definitions@[k]).channel_key@,
                    ),
            decreases self.definitions@.len() - index,
        {
            let definition = &self.definitions[index];
            if !known_contains(known_channels, definition.channel_key.as_str()) {
                return Err(
                    SignalDefinitionError::UnknownChannelKey {
                        key: definition.key.clone(),
                        channel_key: definition.channel_key.clone(),
                    },
                );
            }
            index = index + 1;
        }
        Ok(())
    }
}

impl SignalDefinitionError {
    /// The human-readable description of this error.
    pub open spec fn message_view(&self) -> Seq<char> {
        match *self {
            SignalDefinitionError::EmptyKey => "signal definition key is empty"@,
            SignalDefinitionError::DuplicateKey { key } => "signal definition `"@ + key@ + "` is defined more than once"@,
            SignalDefinitionError::MissingLifecycleEventKinds { key } => "signal definition `"@ + key@ + "` must declare at least one lifecycle event kind"@,
            SignalDefinitionError::InvalidTagQuery { key } => "signal definition `"@ + key@ + "` has an invalid tag query"@,
            SignalDefinitionError::MissingPayloadSchema { key } => "signal definition `"@ + key@ + "` is missing a payload schema"@,
            SignalDefinitionError::MissingChannelKey { key } => "signal definition `"@ + key@ + "` is missing a channel key"@,
            SignalDefinitionError::MissingCategory { key } => "signal definition `"@ + key@ + "` is missing a category"@,
            SignalDefinitionError::UnknownChannelKey { key, channel_key } => "signal definition `"@ + key@ + "` references unknown channel `"@ + channel_key@ + "`"@,
        }
    }

    /// Describes this error for people.
    pub fn message(&self) -> (text: String)
        ensures
            text@ == self.message_view(),
    {
        match self {
            SignalDefinitionError::EmptyKey => text1("signal definition key is empty"),
            SignalDefinitionError::DuplicateKey { key } => text3("signal definition `", key.as_str(), "` is defined more than once"),
            SignalDefinitionError::MissingLifecycleEventKinds { key } => text3("signal definition `", key.as_str(), "` must declare at least one lifecycle event kind"),
            SignalDefinitionError::InvalidTagQuery { key } => text3("signal definition `", key.as_str(), "` has an invalid tag query"),
            SignalDefinitionError::MissingPayloadSchema { key } => text3("signal definition `", key.as_str(), "` is missing a payload schema"),
            SignalDefinitionError::MissingChannelKey { key } => text3("signal definition `", key.as_str(), "` is missing a channel key"),
            SignalDefinitionError::MissingCategory { key } => text3("signal definition `", key.as_str(), "` is missing a category"),
            SignalDefinitionError::UnknownChannelKey { key, channel_key } => text5("signal definition `", key.as_str(), "` references unknown channel `", channel_key.as_str(), "`"),
        }
    }
}

} // verus!
