//! Domain-neutral clock unit adapters.
use vstd::prelude::*;
use std::time::Duration;

verus! {

/// Nanoseconds in one second.
pub const NANOS_PER_SECOND: u128 = 1_000_000_000;

/// Caller-defined mechanics clock units.
///
/// These are opaque units: a caller may map one unit to a turn, millisecond,
/// server tick, phase, or any other deterministic clock boundary.
pub type ClockUnits = u64;

/// `a * b`, or `max` when the product exceeds `max`.
pub open spec fn saturating_product(a: int, b: int, max: int) -> int {
    if a * b > max {
        max
    } else {
        a * b
    }
}

/// `a + b`, or `max` when the sum exceeds `max`.
pub open spec fn saturating_sum(a: int, b: int, max: int) -> int {
    if a + b > max {
        max
    } else {
        a + b
    }
}

/// Whole clock units for `nanos` elapsed nanoseconds at `units_per_second`, capped at `u64::MAX`.
pub open spec fn realtime_units(nanos: int, units_per_second: int) -> int {
    let scaled = saturating_product(nanos, units_per_second, u128::MAX as int)
        / NANOS_PER_SECOND as int;
    if scaled > u64::MAX as int {
        u64::MAX as int
    } else {
        scaled
    }
}

/// The scaled nanosecond count an accumulator holds after adding `nanos`.
pub open spec fn accumulated_scaled(remainder: int, nanos: int, units_per_second: int) -> int {
    saturating_sum(
        saturating_product(nanos, units_per_second, u128::MAX as int),
        remainder,
        u128::MAX as int,
    )
}

/// Converts caller-owned clock steps into clock units.
pub trait Clock {
    type Step;

    fn units_for(&self, step: Self::Step) -> ClockUnits;
}

/// The whole nanoseconds a `Duration` spans, as `Duration::as_nanos` reports them.
pub uninterp spec fn duration_nanos(duration: Duration) -> u128;

/// The total length of `duration` in nanoseconds.
///
/// Wraps `Duration::as_nanos`, which computes the count from the duration alone; the contract
/// names that count and claims nothing more of it.
#[verifier::external_body]
fn duration_as_nanos(duration: Duration) -> (nanos: u128)
    ensures
        nanos == duration_nanos(duration),
{
    duration.as_nanos()
}

fn saturating_mul_u128(a: u128, b: u128) -> (product: u128)
    ensures
        product == saturating_product(a as int, b as int, u128::MAX as int),
{
    match a.checked_mul(b) {
        Some(product) => product,
        None => u128::MAX,
    }
}

fn saturating_mul_u64(a: u64, b: u64) -> (product: u64)
    ensures
        product == saturating_product(a as int, b as int, u64::MAX as int),
{
    match a.checked_mul(b) {
        Some(product) => product,
        None => u64::MAX,
    }
}

/// Caps a scaled count at `ClockUnits::MAX`.
fn cap_units(units: u128) -> (capped: u64)
    ensures
        capped == (if units > u64::MAX as u128 {
            u64::MAX as int
        } else {
            units as int
        }),
{
    if units > u64::MAX as u128 {
        u64::MAX
    } else {
        units as u64
    }
}

/// Fixed-step clock for turn, phase, tick, or other count-based games.
#[derive(Clone, Copy, Debug, PartialEq, Eq)]
pub struct FixedStepClock {
    units_per_step: ClockUnits,
}

impl FixedStepClock {
    /// Units produced per step.
    pub closed spec fn per_step(self) -> u64 {
        self.units_per_step
    }

    pub fn new(units_per_step: ClockUnits) -> (clock: FixedStepClock)
        ensures
            clock.per_step() == units_per_step,
    {
        FixedStepClock { units_per_step }
    }

    pub fn units_per_step(self) -> (units: ClockUnits)
        ensures
            units == self.per_step(),
    {
        self.units_per_step
    }
}

impl Clock for FixedStepClock {
    type Step = ClockUnits;

    fn units_for(&self, step: ClockUnits) -> (units: ClockUnits)
        ensures
            units == saturating_product(
                self.per_step() as int,
                step as int,
                u64::MAX as int,
            ),
    {
        saturating_mul_u64(self.units_per_step, step)
    }
}

/// Realtime clock that maps `std::time::Duration` into caller-selected units.
///
/// The conversion is stateless and floors fractional units for each call.
#[derive(Clone, Copy, Debug, PartialEq, Eq)]
pub struct RealtimeClock {
    units_per_second: ClockUnits,
}

impl RealtimeClock {
    /// Units produced per second of realtime.
    pub closed spec fn per_second(self) -> u64 {
        self.units_per_second
    }

    pub fn new(units_per_second: ClockUnits) -> (clock: RealtimeClock)
        ensures
            clock.per_second() == units_per_second,
    {
        RealtimeClock { units_per_second }
    }

    pub fn units_per_second(self) -> (units: ClockUnits)
        ensures
            units == self.per_second(),
    {
        self.units_per_second
    }

    /// Whole units for an elapsed nanosecond count, floored and capped at `ClockUnits::MAX`.
    pub fn units_for_nanos(&self, nanos: u128) -> (units: ClockUnits)
        ensures
            units == realtime_units(nanos as int, self.per_second() as int),
    {
        let scaled = saturating_mul_u128(nanos, self.units_per_second as u128)
            / NANOS_PER_SECOND;
        cap_units(scaled)
    }
}

impl Clock for RealtimeClock {
    type Step = Duration;

    fn units_for(&self, step: Duration) -> (units: ClockUnits)
        ensures
            units == realtime_units(duration_nanos(step) as int, self.per_second() as int),
    {
        self.units_for_nanos(duration_as_nanos(step))
    }
}

/// Stateful realtime converter that preserves fractional clock units.
///
/// Each advance returns the whole units available for the elapsed duration while
/// retaining the fractional remainder for later calls.
#[derive(Clone, Copy, Debug, PartialEq, Eq)]
pub struct RealtimeClockAccumulator {
    clock: RealtimeClock,
    remainder_nanos_times_units: u128,
}

impl RealtimeClockAccumulator {
    /// The retained fraction, in nanoseconds times units per second.
    pub closed spec fn remainder(&self) -> u128 {
        self.remainder_nanos_times_units
    }

    /// The configured scale.
    pub closed spec fn scale(&self) -> RealtimeClock {
        self.clock
    }

    /// Creates an accumulator using the same scale as `RealtimeClock::new`.
    pub fn new(units_per_second: ClockUnits) -> (accumulator: RealtimeClockAccumulator)
        ensures
            accumulator.scale().per_second() == units_per_second,
            accumulator.remainder() == 0,
    {
        RealtimeClockAccumulator::from_clock(RealtimeClock::new(units_per_second))
    }

    /// Creates an accumulator from an existing realtime clock scale.
    pub fn from_clock(clock: RealtimeClock) -> (accumulator: RealtimeClockAccumulator)
        ensures
            accumulator.scale() == clock,
            accumulator.remainder() == 0,
    {
        RealtimeClockAccumulator { clock, remainder_nanos_times_units: 0 }
    }

    /// Returns the stateless realtime clock scale used by this accumulator.
    pub fn clock(self) -> (clock: RealtimeClock)
        ensures
            clock == self.scale(),
    {
        self.clock
    }

    /// Returns the configured number of mechanics units per second.
    pub fn units_per_second(self) -> (units: ClockUnits)
        ensures
            units == self.scale().per_second(),
    {
        self.clock.units_per_second()
    }

    /// Converts elapsed realtime into whole units and retains any fractional remainder.
    pub fn advance(&mut self, elapsed: Duration) -> (units: ClockUnits)
        ensures
            final(self).scale() == old(self).scale(),
            ({
                let total = accumulated_scaled(
                    old(self).remainder() as int,
                    duration_nanos(elapsed) as int,
                    old(self).scale().per_second() as int,
                );
                &&& final(self).remainder() == total % NANOS_PER_SECOND as int
                &&& units == (if total / NANOS_PER_SECOND as int > u64::MAX as int {
                    u64::MAX as int
                } else {
                    total / NANOS_PER_SECOND as int
                })
            }),
    {
        self.advance_nanos(duration_as_nanos(elapsed))
    }

    /// Converts an elapsed nanosecond count into whole units and retains the remainder.
    pub fn advance_nanos(&mut self, nanos: u128) -> (units: ClockUnits)
        ensures
            final(self).scale() == old(self).scale(),
            ({
                let total = accumulated_scaled(
                    old(self).remainder() as int,
                    nanos as int,
                    old(self).scale().per_second() as int,
                );
                &&& final(self).remainder() == total % NANOS_PER_SECOND as int
                &&& units == (if total / NANOS_PER_SECOND as int > u64::MAX as int {
                    u64::MAX as int
                } else {
                    total / NANOS_PER_SECOND as int
                })
            }),
    {
        let scaled = saturating_mul_u128(nanos, self.clock.units_per_second() as u128);
        let accumulated = scaled.saturating_add(self.remainder_nanos_times_units);
        let units = accumulated / NANOS_PER_SECOND;
        self.remainder_nanos_times_units = accumulated % NANOS_PER_SECOND;
        cap_units(units)
    }

    /// Drops any retained fractional remainder.
    pub fn reset(&mut self)
        ensures
            final(self).scale() == old(self).scale(),
            final(self).remainder() == 0,
    {
        self.remainder_nanos_times_units = 0;
    }
}

/// Advancing never loses or invents time: without saturation, the whole units returned
/// plus the retained fraction account exactly for the previous fraction plus the new input.
pub proof fn lemma_accumulator_conserves_time(remainder: int, nanos: int, units_per_second: int)
    requires
        0 <= remainder,
        0 <= nanos,
        0 <= units_per_second,
        nanos * units_per_second + remainder <= u128::MAX as int,
    ensures
        ({
            let total = accumulated_scaled(remainder, nanos, units_per_second);
            (total / NANOS_PER_SECOND as int) * NANOS_PER_SECOND as int + total
                % NANOS_PER_SECOND as int == remainder + nanos * units_per_second
        }),
{
    let total = accumulated_scaled(remainder, nanos, units_per_second);
    assert(nanos * units_per_second >= 0) by (nonlinear_arith)
        requires
            0 <= nanos,
            0 <= units_per_second,
    ;
    assert(total == nanos * units_per_second + remainder);
    vstd::arithmetic::div_mod::lemma_fundamental_div_mod(total, NANOS_PER_SECOND as int);
}

} // verus!
