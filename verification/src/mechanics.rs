//! Mechanics tick commands.
//!
//! A tick advances caller-registered stores by a number of clock units; the stores and the
//! driver that holds them belong to the caller's runtime. This module holds the command.
use vstd::prelude::*;

use crate::clock::{Clock, ClockUnits};

verus! {

/// Mechanics tick command builder.
#[derive(Clone, Copy, Debug, PartialEq, Eq)]
pub struct MechanicsTick {
    elapsed_units: ClockUnits,
}

impl MechanicsTick {
    /// The units the tick advances by.
    pub closed spec fn elapsed(&self) -> ClockUnits {
        self.elapsed_units
    }

    pub fn new(elapsed_units: ClockUnits) -> (tick: MechanicsTick)
        ensures
            tick.elapsed() == elapsed_units,
    {
        MechanicsTick { elapsed_units }
    }

    /// A tick spanning the units `clock` assigns to `elapsed`.
    pub fn from_clock<C: Clock>(clock: &C, elapsed: C::Step) -> (tick: MechanicsTick)
        ensures
            call_ensures(C::units_for, (clock, elapsed), tick.elapsed()),
    {
        MechanicsTick::new(clock.units_for(elapsed))
    }

    /// The units the tick advances by.
    pub fn elapsed_units(&self) -> (units: ClockUnits)
        ensures
            units == self.elapsed(),
    {
        self.elapsed_units
    }
}

} // verus!
