//! Ability grant and activation ids.
use vstd::prelude::*;

use crate::text::{decimal, decimal_text};

verus! {

/// Granted ability id assigned by `AbilityStore`.
#[derive(Clone, Copy, Debug, Default, PartialEq, Eq, Structural, Hash, PartialOrd, Ord)]
pub struct AbilityId(u64);

impl AbilityId {
    /// The decimal text of this id's value.
    pub fn to_text(self) -> (text: String)
        ensures
            text@ == decimal_text(self.raw() as nat),
    {
        decimal(self.0)
    }

    /// The wire/storage value of this id.
    pub closed spec fn raw(self) -> u64 {
        self.0
    }

    /// The reserved invalid sentinel.
    pub fn invalid() -> (id: AbilityId)
        ensures
            id.raw() == 0,
    {
        AbilityId(0)
    }

    pub fn new(value: u64) -> (id: AbilityId)
        ensures
            id.raw() == value,
    {
        AbilityId(value)
    }

    pub fn get(self) -> (value: u64)
        ensures
            value == self.raw(),
    {
        self.0
    }

    pub fn is_invalid(self) -> (invalid: bool)
        ensures
            invalid == (self.raw() == 0),
    {
        self.0 == 0
    }
}

/// Two ids are equal exactly when their raw values are.
pub broadcast proof fn lemma_ability_id_raw_injective(a: AbilityId, b: AbilityId)
    ensures
        (#[trigger] a.raw() == #[trigger] b.raw()) <==> a == b,
{
}

/// Active ability activation id assigned by `AbilityStore`.
#[derive(Clone, Copy, Debug, Default, PartialEq, Eq, Structural, Hash, PartialOrd, Ord)]
pub struct AbilityActivationId(u64);

impl AbilityActivationId {
    /// The decimal text of this id's value.
    pub fn to_text(self) -> (text: String)
        ensures
            text@ == decimal_text(self.raw() as nat),
    {
        decimal(self.0)
    }

    /// The wire/storage value of this id.
    pub closed spec fn raw(self) -> u64 {
        self.0
    }

    /// The reserved invalid sentinel.
    pub fn invalid() -> (id: AbilityActivationId)
        ensures
            id.raw() == 0,
    {
        AbilityActivationId(0)
    }

    pub fn new(value: u64) -> (id: AbilityActivationId)
        ensures
            id.raw() == value,
    {
        AbilityActivationId(value)
    }

    pub fn get(self) -> (value: u64)
        ensures
            value == self.raw(),
    {
        self.0
    }

    pub fn is_invalid(self) -> (invalid: bool)
        ensures
            invalid == (self.raw() == 0),
    {
        self.0 == 0
    }
}

/// Two ids are equal exactly when their raw values are.
pub broadcast proof fn lemma_activation_id_raw_injective(a: AbilityActivationId, b: AbilityActivationId)
    ensures
        (#[trigger] a.raw() == #[trigger] b.raw()) <==> a == b,
{
}

} // verus!
