//! Active effect ids.
use vstd::prelude::*;

use crate::text::{decimal, decimal_text};

verus! {

/// Active effect instance id assigned by `EffectPipeline`.
#[derive(Clone, Copy, Debug, Default, PartialEq, Eq, Structural, Hash, PartialOrd, Ord)]
pub struct ActiveEffectId(u64);

impl ActiveEffectId {
    /// The decimal text of this id's value.
    pub fn to_text(self) -> (text: String)
        ensures
            text@ == decimal_text(self.raw() as nat),
    {
        decimal(self.0)
    }

    /// The wire/storage value of this id.
    pub closed spec fn raw(self) -> u64 {
        self.0
    }

    /// The reserved invalid sentinel.
    pub fn invalid() -> (id: ActiveEffectId)
        ensures
            id.raw() == 0,
    {
        ActiveEffectId(0)
    }

    pub fn new(value: u64) -> (id: ActiveEffectId)
        ensures
            id.raw() == value,
    {
        ActiveEffectId(value)
    }

    pub fn get(self) -> (value: u64)
        ensures
            value == self.raw(),
    {
        self.0
    }

    pub fn is_invalid(self) -> (invalid: bool)
        ensures
            invalid == (self.raw() == 0),
    {
        self.0 == 0
    }
}

/// Two ids are equal exactly when their raw values are.
pub broadcast proof fn lemma_active_effect_id_raw_injective(a: ActiveEffectId, b: ActiveEffectId)
    ensures
        (#[trigger] a.raw() == #[trigger] b.raw()) <==> a == b,
{
}

} // verus!
