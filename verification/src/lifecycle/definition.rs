//! Named, typed channel definitions and route validation.
use vstd::prelude::*;

use super::kind::LifecycleEventKind;
use super::kind::kind_name;
use crate::text::{str_eq, text1, text3, text4};

verus! {

/// Characters allowed in a channel name.
pub open spec fn is_channel_name_char(c: char) -> bool {
    ||| ('a' <= c && c <= 'z')
    ||| ('A' <= c && c <= 'Z')
    ||| ('0' <= c && c <= '9')
    ||| c == '.'
    ||| c == '_'
    ||| c == '-'
    ||| c == ':'
    ||| c == '/'
}

/// A channel name is valid when it is non-empty and uses only allowed characters.
pub open spec fn is_valid_channel_name(name: Seq<char>) -> bool {
    &&& name.len() > 0
    &&& forall|i: int| 0 <= i < name.len() ==> is_channel_name_char(#[trigger] name[i])
}

/// ASCII letters and digits, and the separators `.`, `_`, `-`, `:` and `/`.
pub open spec fn channel_alphabet(c: char) -> bool {
    ||| '0' <= c <= '9'
    ||| 'A' <= c <= 'Z'
    ||| 'a' <= c <= 'z'
    ||| seq!['.', '_', '-', ':', '/'].contains(c)
}

/// Channel names are the non-empty words over ASCII letters, digits and the separators `.`,
/// `_`, `-`, `:` and `/`: every such word is a valid name (so `snake_case`, `dotted.names`
/// and `scoped:paths/like-this` are), and a name holding any other character, or no
/// character, is not.
pub proof fn lemma_channel_names(name: Seq<char>)
    ensures
        forall|c: char| #[trigger] is_channel_name_char(c) <==> channel_alphabet(c),
        is_valid_channel_name(name) <==> (name.len() > 0 && forall|i: int|
            0 <= i < name.len() ==> channel_alphabet(#[trigger] name[i])),
{
    assert forall|c: char| #[trigger] is_channel_name_char(c) <==> channel_alphabet(c) by {
        let punctuation = seq!['.', '_', '-', ':', '/'];
        assert(punctuation[0] == '.' && punctuation[1] == '_' && punctuation[2] == '-' && punctuation[3]
            == ':' && punctuation[4] == '/');
        if punctuation.contains(c) {
            let k = choose|k: int| 0 <= k < punctuation.len() && punctuation[k] == c;
            assert(k == 0 || k == 1 || k == 2 || k == 3 || k == 4);
        }
        if c == '.' {
            assert(punctuation[0] == c);
        }
        if c == '_' {
            assert(punctuation[1] == c);
        }
        if c == '-' {
            assert(punctuation[2] == c);
        }
        if c == ':' {
            assert(punctuation[3] == c);
        }
        if c == '/' {
            assert(punctuation[4] == c);
        }
    }
}

/// The first position at which a kind repeats an earlier one, if any.
pub open spec fn first_repeated_kind(kinds: Seq<LifecycleEventKind>) -> Option<int>
    decreases kinds.len(),
{
    if kinds.len() == 0 {
        None
    } else {
        match first_repeated_kind(kinds.drop_last()) {
            Some(j) => Some(j),
            None => if kinds.drop_last().contains(kinds.last()) {
                Some(kinds.len() - 1)
            } else {
                None
            },
        }
    }
}

/// Validation failures for event channel definitions and route wiring.
#[derive(Clone, Debug, PartialEq, Eq)]
pub enum EventChannelDefinitionError {
    EmptyChannelName,
    InvalidChannelName { channel_name: String },
    EmptyPayloadContract { channel_name: String },
    DuplicatePayloadKind { channel_name: String, kind: LifecycleEventKind },
    DuplicateChannelDefinition { channel_name: String },
    MissingChannelDefinition { channel_name: String },
    PayloadMismatch { channel_name: String, kind: LifecycleEventKind },
}

/// Checks one channel name, handing the name back when it is valid.
fn validate_channel_name(name: String) -> (result: Result<String, EventChannelDefinitionError>)
    ensures
        name@.len() == 0 ==> result == Err::<String, EventChannelDefinitionError>(
            EventChannelDefinitionError::EmptyChannelName,
        ),
        name@.len() > 0 && !is_valid_channel_name(name@) ==> result == Err::<
            String,
            EventChannelDefinitionError,
        >(EventChannelDefinitionError::InvalidChannelName { channel_name: name }),
        is_valid_channel_name(name@) ==> result == Ok::<String, EventChannelDefinitionError>(
            name,
        ),
{
    if name.as_str().is_empty() {
        return Err(EventChannelDefinitionError::EmptyChannelName);
    }
    if channel_name_chars_valid(name.as_str()) {
        Ok(name)
    } else {
        Err(EventChannelDefinitionError::InvalidChannelName { channel_name: name })
    }
}

fn is_channel_name_char_exec(c: char) -> (allowed: bool)
    ensures
        allowed == is_channel_name_char(c),
{
    ('a' <= c && c <= 'z') || ('A' <= c && c <= 'Z') || ('0' <= c && c <= '9') || c == '.' || c
        == '_' || c == '-' || c == ':' || c == '/'
}

fn channel_name_chars_valid(name: &str) -> (valid: bool)
    ensures
        valid == forall|i: int| 0 <= i < name@.len() ==> is_channel_name_char(#[trigger] name@[i]),
{
    for c in it: name.chars()
        invariant
            it.seq() == name@,
            forall|i: int| 0 <= i < it.index() ==> is_channel_name_char(#[trigger] name@[i]),
    {
        if !is_channel_name_char_exec(c) {
            return false;
        }
    }
    true
}

/// Whether `kinds` holds `kind`.
fn kinds_contain(kinds: &Vec<LifecycleEventKind>, kind: LifecycleEventKind) -> (found: bool)
    ensures
        found == kinds@.contains(kind),
{
    let mut index: usize = 0;
    while index < kinds.len()
        invariant
            0 <= index <= kinds@.len(),
            forall|k: int| 0 <= k < index ==> kinds@[k] != kind,
        decreases kinds@.len() - index,
    {
        if kinds[index] == kind {
            assert(kinds@[index as int] == kind);
            return true;
        }
        index = index + 1;
    }
    false
}

/// Named, typed routing target for lifecycle facts.
#[derive(Clone, Debug, PartialEq, Eq)]
pub struct EventChannelDefinition {
    name: String,
    accepted_kinds: Vec<LifecycleEventKind>,
}

impl EventChannelDefinition {
    /// The channel's stable name.
    pub closed spec fn name_view(&self) -> Seq<char> {
        self.name@
    }

    /// The accepted payload kinds in declaration order.
    pub closed spec fn kinds_view(&self) -> Seq<LifecycleEventKind> {
        self.accepted_kinds@
    }

    /// Builds a channel definition and validates its stable name and payload contract.
    pub fn new(name: String, accepted_kinds: Vec<LifecycleEventKind>) -> (result: Result<
        EventChannelDefinition,
        EventChannelDefinitionError,
    >)
        ensures
            name@.len() == 0 ==> result == Err::<
                EventChannelDefinition,
                EventChannelDefinitionError,
            >(EventChannelDefinitionError::EmptyChannelName),
            name@.len() > 0 && !is_valid_channel_name(name@) ==> result == Err::<
                EventChannelDefinition,
                EventChannelDefinitionError,
            >(EventChannelDefinitionError::InvalidChannelName { channel_name: name }),
            is_valid_channel_name(name@) && first_repeated_kind(accepted_kinds@) is Some
                ==> result == Err::<EventChannelDefinition, EventChannelDefinitionError>(
                EventChannelDefinitionError::DuplicatePayloadKind {
                    channel_name: name,
                    kind: accepted_kinds@[first_repeated_kind(accepted_kinds@)->0],
                },
            ),
            is_valid_channel_name(name@) && first_repeated_kind(accepted_kinds@) is None
                && accepted_kinds@.len() == 0 ==> result == Err::<
                EventChannelDefinition,
                EventChannelDefinitionError,
            >(EventChannelDefinitionError::EmptyPayloadContract { channel_name: name }),
            is_valid_channel_name(name@) && first_repeated_kind(accepted_kinds@) is None
                && accepted_kinds@.len() > 0 ==> (result matches Ok(definition) && definition.name_view()
                == name@ && definition.kinds_view() == accepted_kinds@),
            result matches Ok(definition) ==> definition.kinds_view().no_duplicates(),
    {
        let checked = match validate_channel_name(name) {
            Ok(checked) => checked,
            Err(error) => return Err(error),
        };
        let mut kinds: Vec<LifecycleEventKind> = Vec::new();
        let mut index: usize = 0;
        while index < accepted_kinds.len()
            invariant
                checked == name,
                is_valid_channel_name(name@),
                0 <= index <= accepted_kinds@.len(),
                kinds@ == accepted_kinds@.take(index as int),
                first_repeated_kind(kinds@) is None,
                kinds@.no_duplicates(),
            decreases accepted_kinds@.len() - index,
        {
            let kind = accepted_kinds[index];
            proof {
                assert(accepted_kinds@.take(index + 1).drop_last() == accepted_kinds@.take(
                    index as int,
                ));
                assert(first_repeated_kind(accepted_kinds@.take(index as int)) is None);
            }
            if kinds_contain(&kinds, kind) {
                proof {
                    lemma_first_repeat_prefix(accepted_kinds@, index as int + 1);
                }
                return Err(EventChannelDefinitionError::DuplicatePayloadKind {
                    channel_name: checked,
                    kind,
                });
            }
            let ghost before = kinds@;
            kinds.push(kind);
            proof {
                assert(kinds@.drop_last() == before);
                assert(kinds@ == accepted_kinds@.take(index + 1));
            }
            index = index + 1;
        }
        proof {
            assert(accepted_kinds@.take(accepted_kinds@.len() as int) == accepted_kinds@);
        }
        if kinds.len() == 0 {
            return Err(EventChannelDefinitionError::EmptyPayloadContract { channel_name: checked });
        }
        Ok(EventChannelDefinition { name: checked, accepted_kinds: kinds })
    }

    pub fn name(&self) -> (name: &str)
        ensures
            name@ == self.name_view(),
    {
        self.name.as_str()
    }

    pub fn accepted_kinds(&self) -> (kinds: &[LifecycleEventKind])
        ensures
            kinds@ == self.kinds_view(),
    {
        self.accepted_kinds.as_slice()
    }

    pub fn accepts(&self, kind: LifecycleEventKind) -> (accepted: bool)
        ensures
            accepted == self.kinds_view().contains(kind),
    {
        kinds_contain(&self.accepted_kinds, kind)
    }

    /// Validates one lifecycle fact kind against this channel's payload contract.
    pub fn validate_payload_kind(&self, kind: LifecycleEventKind) -> (result: Result<
        (),
        EventChannelDefinitionError,
    >)
        ensures
            self.kinds_view().contains(kind) ==> result is Ok,
            !self.kinds_view().contains(kind) ==> (result matches Err(
                EventChannelDefinitionError::PayloadMismatch { channel_name, kind: k },
            ) && channel_name@ == self.name_view() && k == kind),
    {
        if self.accepts(kind) {
            Ok(())
        } else {
            Err(
                EventChannelDefinitionError::PayloadMismatch {
                    channel_name: self.name.clone(),
                    kind,
                },
            )
        }
    }
}

/// When the first repeat of a prefix lies at its last position, it is the first repeat
/// of the whole sequence.
proof fn lemma_first_repeat_prefix(kinds: Seq<LifecycleEventKind>, n: int)
    requires
        0 < n <= kinds.len(),
        first_repeated_kind(kinds.take(n - 1)) is None,
        kinds.take(n - 1).contains(kinds[n - 1]),
    ensures
        first_repeated_kind(kinds) == Some(n - 1),
    decreases kinds.len(),
{
    assert(kinds.take(n).drop_last() == kinds.take(n - 1));
    assert(first_repeated_kind(kinds.take(n)) == Some(n - 1));
    if kinds.len() > n {
        assert(kinds.drop_last().take(n) == kinds.take(n));
        assert(kinds.drop_last().take(n - 1) == kinds.take(n - 1));
        lemma_first_repeat_prefix(kinds.drop_last(), n);
    } else {
        assert(kinds.take(n) == kinds);
    }
}

/// True when some definition in `definitions` has the name `name`.
pub open spec fn defines_channel(definitions: Seq<EventChannelDefinition>, name: Seq<char>) -> bool {
    exists|i: int| 0 <= i < definitions.len() && (#[trigger] definitions[i]).name_view() == name
}

/// Channel names in `definitions` are distinct.
pub open spec fn unique_channel_names(definitions: Seq<EventChannelDefinition>) -> bool {
    forall|i: int, j: int|
        0 <= i < definitions.len() && 0 <= j < definitions.len() && i != j ==> (#[trigger] definitions[i]).name_view()
            != (#[trigger] definitions[j]).name_view()
}

/// The first position whose name repeats an earlier definition's name, if any.
pub open spec fn first_repeated_channel(definitions: Seq<EventChannelDefinition>) -> Option<int>
    decreases definitions.len(),
{
    if definitions.len() == 0 {
        None
    } else {
        match first_repeated_channel(definitions.drop_last()) {
            Some(j) => Some(j),
            None => if defines_channel(definitions.drop_last(), definitions.last().name_view()) {
                Some(definitions.len() - 1)
            } else {
                None
            },
        }
    }
}

/// A validated collection of channel definitions with distinct names.
#[derive(Clone, Debug, PartialEq, Eq)]
pub struct EventChannelDefinitions {
    definitions: Vec<EventChannelDefinition>,
}

impl EventChannelDefinitions {
    /// Definitions in declaration order.
    pub closed spec fn view(&self) -> Seq<EventChannelDefinition> {
        self.definitions@
    }

    /// Builds a definition collection and rejects duplicate channel names.
    pub fn new(definitions: Vec<EventChannelDefinition>) -> (result: Result<
        EventChannelDefinitions,
        EventChannelDefinitionError,
    >)
        ensures
            first_repeated_channel(definitions@) is None ==> (result matches Ok(collection)
                && collection@ == definitions@),
            first_repeated_channel(definitions@) matches Some(j) ==> (result matches Err(
                EventChannelDefinitionError::DuplicateChannelDefinition { channel_name },
            ) && channel_name@ == definitions@[j].name_view()),
            result matches Ok(collection) ==> unique_channel_names(collection@),
    {
        let mut index: usize = 0;
        while index < definitions.len()
            invariant
                0 <= index <= definitions@.len(),
                first_repeated_channel(definitions@.take(index as int)) is None,
                unique_channel_names(definitions@.take(index as int)),
            decreases definitions@.len() - index,
        {
            let ghost prefix = definitions@.take(index as int);
            proof {
                assert(definitions@.take(index + 1).drop_last() == prefix);
            }
            match find_channel_before(&definitions, index, definitions[index].name()) {
                Some(p) => {
                    proof {
                        assert(prefix[p as int] == definitions@[p as int]);
                        assert(defines_channel(prefix, definitions@[index as int].name_view()));
                        lemma_first_repeated_channel_prefix(definitions@, index as int + 1);
                    }
                    return Err(
                        EventChannelDefinitionError::DuplicateChannelDefinition {
                            channel_name: definitions[index].name().to_owned(),
                        },
                    );
                },
                None => {},
            }
            proof {
                let next = definitions@.take(index + 1);
                assert(next.drop_last() == prefix);
                assert forall|i: int, j: int|
                    0 <= i < next.len() && 0 <= j < next.len() && i != j
                    implies (#[trigger] next[i]).name_view() != (#[trigger] next[j]).name_view() by {
                    if i == index as int {
                        assert(prefix[j] == next[j]);
                    } else if j == index as int {
                        assert(prefix[i] == next[i]);
                    } else {
                        assert(prefix[i] == next[i]);
                        assert(prefix[j] == next[j]);
                    }
                }
            }
            index = index + 1;
        }
        proof {
            assert(definitions@.take(definitions@.len() as int) == definitions@);
        }
        Ok(EventChannelDefinitions { definitions })
    }

    pub fn definitions(&self) -> (definitions: &[EventChannelDefinition])
        ensures
            definitions@ == self@,
    {
        self.definitions.as_slice()
    }

    pub fn get(&self, name: &str) -> (found: Option<&EventChannelDefinition>)
        ensures
            match found {
                Some(d) => defines_channel(self@, name@) && d.name_view() == name@ && self@.contains(*d)
                    && *d == self@[channel_position(self@, name@)],
                None => !defines_channel(self@, name@),
            },
    {
        proof {
            assert(self.definitions@.take(self.definitions@.len() as int) == self.definitions@);
        }
        match find_channel_before(&self.definitions, self.definitions.len(), name) {
            Some(index) => {
                proof {
                    lemma_first_named_unique(self@, name@, index as int, channel_position(self@, name@));
                }
                Some(&self.definitions[index])
            },
            None => None,
        }
    }

    /// Validates one explicit source-to-channel route.
    pub fn validate_route(&self, route: &EventChannelRouteDefinition) -> (result: Result<
        (),
        EventChannelDefinitionError,
    >)
        ensures
            !defines_channel(self@, route.name_view()) ==> (result matches Err(
                EventChannelDefinitionError::MissingChannelDefinition { channel_name },
            ) && channel_name@ == route.name_view()),
            defines_channel(self@, route.name_view()) ==> {
                let d = self@[channel_position(self@, route.name_view())];
                &&& d.kinds_view().contains(route.event_kind_view()) ==> result is Ok
                &&& !d.kinds_view().contains(route.event_kind_view()) ==> (result matches Err(
                    EventChannelDefinitionError::PayloadMismatch { channel_name, kind },
                ) && channel_name@ == route.name_view() && kind == route.event_kind_view())
            },
    {
        match self.get(route.channel_name()) {
            None => Err(
                EventChannelDefinitionError::MissingChannelDefinition {
                    channel_name: route.channel_name().to_owned(),
                },
            ),
            Some(definition) => {
                definition.validate_payload_kind(route.event_kind())
            },
        }
    }
}

/// `i` is the position of the first definition named `name`.
pub open spec fn first_named(definitions: Seq<EventChannelDefinition>, name: Seq<char>, i: int) -> bool {
    &&& 0 <= i < definitions.len()
    &&& definitions[i].name_view() == name
    &&& forall|k: int| 0 <= k < i ==> (#[trigger] definitions[k]).name_view() != name
}

/// At most one position is the first named `name`; once one is, `channel_position` is it.
proof fn lemma_first_named_unique(definitions: Seq<EventChannelDefinition>, name: Seq<char>, i: int, j: int)
    requires
        first_named(definitions, name, i),
        j == channel_position(definitions, name),
    ensures
        j == i,
{
    assert(first_named(definitions, name, j));
    if j < i {
        assert(definitions[j].name_view() != name);
    } else if i < j {
        assert(definitions[i].name_view() != name);
    }
}

/// The position of the first definition named `name` (meaningful when `defines_channel`
/// holds).
pub open spec fn channel_position(definitions: Seq<EventChannelDefinition>, name: Seq<char>) -> int {
    choose|i: int| #[trigger] first_named(definitions, name, i)
}

/// Finds the position, below `end`, of the first definition named `name`.
fn find_channel_before(definitions: &Vec<EventChannelDefinition>, end: usize, name: &str) -> (position: Option<usize>)
    requires
        end <= definitions@.len(),
    ensures
        match position {
            Some(p) => p < end && first_named(definitions@, name@, p as int),
            None => !defines_channel(definitions@.take(end as int), name@),
        },
{
    let mut index: usize = 0;
    while index < end
        invariant
            end <= definitions@.len(),
            0 <= index <= end,
            forall|k: int| 0 <= k < index ==> (#[trigger] definitions@[k]).name_view() != name@,
        decreases end - index,
    {
        if str_eq(definitions[index].name(), name) {
            return Some(index);
        }
        index = index + 1;
    }
    proof {
        assert forall|k: int| 0 <= k < end implies (#[trigger] definitions@.take(end as int)[k]).name_view() != name@ by {
            assert(definitions@.take(end as int)[k] == definitions@[k]);
        }
    }
    None
}

proof fn lemma_first_repeated_channel_prefix(definitions: Seq<EventChannelDefinition>, n: int)
    requires
        0 < n <= definitions.len(),
        first_repeated_channel(definitions.take(n - 1)) is None,
        defines_channel(definitions.take(n - 1), definitions[n - 1].name_view()),
    ensures
        first_repeated_channel(definitions) == Some(n - 1),
    decreases definitions.len(),
{
    assert(definitions.take(n).drop_last() == definitions.take(n - 1));
    assert(first_repeated_channel(definitions.take(n)) == Some(n - 1));
    if definitions.len() > n {
        assert(definitions.drop_last().take(n) == definitions.take(n));
        assert(definitions.drop_last().take(n - 1) == definitions.take(n - 1));
        lemma_first_repeated_channel_prefix(definitions.drop_last(), n);
    } else {
        assert(definitions.take(n) == definitions);
    }
}

/// One explicit lifecycle fact route into a named event channel.
#[derive(Clone, Debug, PartialEq, Eq)]
pub struct EventChannelRouteDefinition {
    channel_name: String,
    event_kind: LifecycleEventKind,
}

impl EventChannelRouteDefinition {
    /// The target channel name.
    pub closed spec fn name_view(&self) -> Seq<char> {
        self.channel_name@
    }

    /// The routed fact kind.
    pub closed spec fn event_kind_view(&self) -> LifecycleEventKind {
        self.event_kind
    }

    pub fn new(channel_name: String, event_kind: LifecycleEventKind) -> (result: Result<
        EventChannelRouteDefinition,
        EventChannelDefinitionError,
    >)
        ensures
            channel_name@.len() == 0 ==> result == Err::<
                EventChannelRouteDefinition,
                EventChannelDefinitionError,
            >(EventChannelDefinitionError::EmptyChannelName),
            channel_name@.len() > 0 && !is_valid_channel_name(channel_name@) ==> result == Err::<
                EventChannelRouteDefinition,
                EventChannelDefinitionError,
            >(EventChannelDefinitionError::InvalidChannelName { channel_name }),
            is_valid_channel_name(channel_name@) ==> (result matches Ok(route) && route.name_view()
                == channel_name@ && route.event_kind_view() == event_kind),
    {
        let channel_name = match validate_channel_name(channel_name) {
            Ok(name) => name,
            Err(error) => return Err(error),
        };
        Ok(EventChannelRouteDefinition { channel_name, event_kind })
    }

    pub fn channel_name(&self) -> (name: &str)
        ensures
            name@ == self.name_view(),
    {
        self.channel_name.as_str()
    }

    pub fn event_kind(&self) -> (kind: LifecycleEventKind)
        ensures
            kind == self.event_kind_view(),
    {
        self.event_kind
    }
}

impl EventChannelDefinitionError {
    /// The human-readable description of this error.
    pub open spec fn message_view(&self) -> Seq<char> {
        match *self {
            EventChannelDefinitionError::EmptyChannelName => "event channel name is empty"@,
            EventChannelDefinitionError::InvalidChannelName { channel_name } => "event channel name `"@ + channel_name@ + "` is invalid"@,
            EventChannelDefinitionError::EmptyPayloadContract { channel_name } => "event channel `"@ + channel_name@ + "` has an empty payload contract"@,
            EventChannelDefinitionError::DuplicatePayloadKind { channel_name, kind } => "event channel `"@ + channel_name@ + "` has duplicate payload kind "@ + kind_name(kind),
            EventChannelDefinitionError::DuplicateChannelDefinition { channel_name } => "event channel `"@ + channel_name@ + "` is defined more than once"@,
            EventChannelDefinitionError::MissingChannelDefinition { channel_name } => "event channel `"@ + channel_name@ + "` is not defined"@,
            EventChannelDefinitionError::PayloadMismatch { channel_name, kind } => "event channel `"@ + channel_name@ + "` does not accept payload kind "@ + kind_name(kind),
        }
    }

    /// Describes this error for people.
    pub fn message(&self) -> (text: String)
        ensures
            text@ == self.message_view(),
    {
        match self {
            EventChannelDefinitionError::EmptyChannelName => text1("event channel name is empty"),
            EventChannelDefinitionError::InvalidChannelName { channel_name } => text3("event channel name `", channel_name.as_str(), "` is invalid"),
            EventChannelDefinitionError::EmptyPayloadContract { channel_name } => text3("event channel `", channel_name.as_str(), "` has an empty payload contract"),
            EventChannelDefinitionError::DuplicatePayloadKind { channel_name, kind } => text4("event channel `", channel_name.as_str(), "` has duplicate payload kind ", kind.name()),
            EventChannelDefinitionError::DuplicateChannelDefinition { channel_name } => text3("event channel `", channel_name.as_str(), "` is defined more than once"),
            EventChannelDefinitionError::MissingChannelDefinition { channel_name } => text3("event channel `", channel_name.as_str(), "` is not defined"),
            EventChannelDefinitionError::PayloadMismatch { channel_name, kind } => text4("event channel `", channel_name.as_str(), "` does not accept payload kind ", kind.name()),
        }
    }
}

} // verus!
