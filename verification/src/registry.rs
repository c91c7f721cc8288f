//! Domain-neutral registry helpers for compiled mechanics definitions.
use vstd::prelude::*;

use crate::text::str_eq;

verus! {

/// A registry entry addressable by a stable key.
pub trait RegistryEntry {
    fn key(&self) -> &str;
}

/// `entry` reported `key` as its key.
pub open spec fn reports_key<Entry: RegistryEntry>(entry: &Entry, key: Seq<char>) -> bool {
    exists|k: &str| #[trigger] call_ensures(Entry::key, (entry,), k) && k@ == key
}

/// `entry` reported a key other than `key`.
pub open spec fn reports_other_key<Entry: RegistryEntry>(entry: &Entry, key: Seq<char>) -> bool {
    exists|k: &str| #[trigger] call_ensures(Entry::key, (entry,), k) && k@ != key
}

/// A registry entry that can materialize a compiled definition.
pub trait DefinitionRegistryEntry: RegistryEntry {
    type Definition;

    fn build_definition(&self) -> Self::Definition;
}

/// Deterministic registry over caller-owned entry records.
#[derive(Clone, Copy, Debug, PartialEq, Eq)]
pub struct Registry<'a, Entry> {
    entries: &'a [Entry],
}

impl<'a, Entry> Registry<'a, Entry> {
    /// Entries in caller-owned order.
    pub closed spec fn view(&self) -> Seq<Entry> {
        self.entries@
    }

    /// Creates a registry from entries ordered by the caller.
    pub fn new(entries: &'a [Entry]) -> (registry: Self)
        ensures
            registry@ == entries@,
    {
        Registry { entries }
    }

    /// Returns all registered entries in caller-owned order.
    pub fn entries(&self) -> (entries: &'a [Entry])
        ensures
            entries@ == self@,
    {
        self.entries
    }

    /// Finds the first entry accepted by `predicate`.
    ///
    /// Entries are offered in order until one is accepted.
    pub fn lookup<F>(&self, predicate: F) -> (found: Option<&'a Entry>)
        where
            F: Fn(&Entry) -> bool,
        requires
            forall|e: &Entry| predicate.requires((e,)),
        ensures
            match found {
                Some(e) => exists|i: int|
                    0 <= i < self@.len() && self@[i] == *e && predicate.ensures((e,), true)
                        && forall|k: int|
                        0 <= k < i ==> predicate.ensures((&self@[k],), false),
                None => forall|k: int| 0 <= k < self@.len() ==> predicate.ensures((&self@[k],), false),
            },
    {
        let mut index: usize = 0;
        while index < self.entries.len()
            invariant
                0 <= index <= self.entries@.len(),
                forall|e: &Entry| predicate.requires((e,)),
                forall|k: int| 0 <= k < index ==> predicate.ensures((&self.entries@[k],), false),
            decreases self.entries@.len() - index,
        {
            let entry = &self.entries[index];
            if predicate(entry) {
                assert(self@[index as int] == *entry);
                return Some(entry);
            }
            index = index + 1;
        }
        None
    }
}

impl<'a, Entry: RegistryEntry> Registry<'a, Entry> {
    /// Finds the first entry with stable key `key`.
    ///
    /// Each entry is asked for its key once, in order, until one reports `key`.
    pub fn lookup_key(&self, key: &str) -> (found: Option<&'a Entry>)
        ensures
            match found {
                Some(e) => exists|i: int|
                    0 <= i < self@.len() && self@[i] == *e && reports_key(e, key@) && forall|k: int|
                        0 <= k < i ==> reports_other_key(&(#[trigger] self@[k]), key@),
                None => forall|k: int|
                    0 <= k < self@.len() ==> reports_other_key(&(#[trigger] self@[k]), key@),
            },
    {
        let mut index: usize = 0;
        while index < self.entries.len()
            invariant
                0 <= index <= self.entries@.len(),
                forall|k: int|
                    0 <= k < index ==> reports_other_key(&(#[trigger] self.entries@[k]), key@),
            decreases self.entries@.len() - index,
        {
            let entry = &self.entries[index];
            let entry_key = entry.key();
            if str_eq(entry_key, key) {
                assert(self@[index as int] == *entry);
                return Some(entry);
            }
            index = index + 1;
        }
        None
    }
}

impl<'a, Entry: DefinitionRegistryEntry> Registry<'a, Entry> {
    /// Builds a definition from the first entry with stable key `key`.
    pub fn definition(&self, key: &str) -> (definition: Option<Entry::Definition>)
        ensures
            match definition {
                Some(d) => exists|i: int|
                    0 <= i < self@.len() && reports_key(&self@[i], key@) && call_ensures(
                        Entry::build_definition,
                        (&self@[i],),
                        d,
                    ) && forall|k: int|
                        0 <= k < i ==> reports_other_key(&(#[trigger] self@[k]), key@),
                None => forall|k: int|
                    0 <= k < self@.len() ==> reports_other_key(&(#[trigger] self@[k]), key@),
            },
    {
        match self.lookup_key(key) {
            Some(entry) => Some(entry.build_definition()),
            None => None,
        }
    }
}

} // verus!
