//! Field & power coordination for the contactless channel.
//!
//! On boards that harvest their power from the reader's field, the core
//! trades CPU throughput against the available power budget: it runs at a
//! reduced clock most of the time and boosts briefly during active
//! exchanges. Dependent timers are expressed in microcontroller cycles on
//! such boards, so every clock-speed change must rescale cycle counts — not
//! wall time — or a keepalive would fire too early or too late.

use vstd::prelude::*;
use vstd::arithmetic::div_mod::lemma_div_denominator;
use vstd::arithmetic::div_mod::lemma_div_multiples_vanish;
use vstd::arithmetic::mul::lemma_mul_is_commutative;

verus! {

/// Oscillator speed target.
#[derive(Clone, Copy, Debug, PartialEq, Eq, Structural)]
pub enum ClockMode {
    /// Reduced clock, for running on harvested field power.
    LowPower,
    /// Full clock, for externally powered operation and brief boosts.
    HighThroughput,
}

/// Presence of the contactless reader's field.
#[derive(Clone, Copy, Debug, PartialEq, Eq, Structural)]
pub enum FieldState {
    /// No field: the device is powered externally (or not at all).
    Absent,
    /// Field energized; protocol activity possible.
    Present,
    /// The protocol put the channel to sleep; the field is still present.
    Halted,
}

/// Cycles per millisecond of the reduced clock.
pub const LOW_POWER_CYCLES_PER_MS: u64 = 12_000;

/// Cycles per millisecond of the full clock.
pub const HIGH_THROUGHPUT_CYCLES_PER_MS: u64 = 48_000;

/// Minimum supply level (millivolts) at which a boost to the full clock is
/// affordable while running on harvested power.
pub const BOOST_THRESHOLD_MILLIVOLTS: u32 = 2_400;

/// Cycle rate of a clock mode.
pub open spec fn spec_cycles_per_ms(m: ClockMode) -> int {
    match m {
        ClockMode::LowPower => LOW_POWER_CYCLES_PER_MS as int,
        ClockMode::HighThroughput => HIGH_THROUGHPUT_CYCLES_PER_MS as int,
    }
}

/// Cycle rate of a clock mode.
pub fn cycles_per_ms(m: ClockMode) -> (r: u64)
    ensures
        r as int == spec_cycles_per_ms(m),
{
    match m {
        ClockMode::LowPower => LOW_POWER_CYCLES_PER_MS,
        ClockMode::HighThroughput => HIGH_THROUGHPUT_CYCLES_PER_MS,
    }
}

/// The clock mode the coordinator asks for: full speed when externally
/// powered, and on field power a brief boost during an active exchange if
/// the harvested supply can afford it.
pub open spec fn spec_clock_target(field: FieldState, exchange_active: bool, millivolts: u32) -> ClockMode {
    match field {
        FieldState::Absent => ClockMode::HighThroughput,
        FieldState::Present => if exchange_active && millivolts >= BOOST_THRESHOLD_MILLIVOLTS {
            ClockMode::HighThroughput
        } else {
            ClockMode::LowPower
        },
        FieldState::Halted => ClockMode::LowPower,
    }
}

/// A duration of `cycles` cycles at `old_rate` cycles per millisecond,
/// re-expressed in cycles at `new_rate` cycles per millisecond.
pub open spec fn spec_rebase(cycles: int, old_rate: int, new_rate: int) -> int {
    (cycles * new_rate) / old_rate
}

/// Clock-rebasing correctness: rebasing scales cycle counts, not wall time —
/// the rebased count spans exactly the same whole milliseconds of wall clock
/// as the original did (the sub-millisecond remainders differ by less than
/// one tick of rounding).
pub proof fn lemma_rebase_preserves_wall_clock(cycles: int, old_rate: int, new_rate: int)
    requires
        0 <= cycles,
        1 <= old_rate,
        1 <= new_rate,
    ensures
        spec_rebase(cycles, old_rate, new_rate) / new_rate == cycles / old_rate,
{
    let c = cycles;
    let o = old_rate;
    let n = new_rate;
    lemma_div_denominator(c * n, o, n);
    assert(((c * n) / o) / n == (c * n) / (o * n));
    lemma_mul_is_commutative(o, n);
    lemma_div_denominator(c * n, n, o);
    assert((c * n) / (n * o) == ((c * n) / n) / o);
    lemma_mul_is_commutative(c, n);
    lemma_div_multiples_vanish(c, n);
    assert((n * c) / n == c);
}

/// Rescale a cycle count from one clock rate to another, preserving its
/// wall-clock meaning.
pub fn rebase_cycles(cycles: u64, old_rate: u64, new_rate: u64) -> (r: u64)
    requires
        1 <= old_rate,
        1 <= new_rate,
        cycles as int * new_rate as int <= u64::MAX as int,
    ensures
        r as int == spec_rebase(cycles as int, old_rate as int, new_rate as int),
        r as int / new_rate as int == cycles as int / old_rate as int,
{
    proof {
        lemma_rebase_preserves_wall_clock(cycles as int, old_rate as int, new_rate as int);
        vstd::arithmetic::div_mod::lemma_div_pos_is_pos(cycles as int * new_rate as int, old_rate as int);
        vstd::arithmetic::div_mod::lemma_div_is_ordered_by_denominator(
            cycles as int * new_rate as int,
            1,
            old_rate as int,
        );
    }
    (cycles * new_rate) / old_rate
}

/// The field & power coordinator: tracks field presence for the contactless
/// channel and the oscillator speed chosen for it.
pub struct FieldCoordinator {
    field: FieldState,
    clock: ClockMode,
}

impl FieldCoordinator {
    /// A coordinator for a device that boots with no field present, on the
    /// full clock.
    pub fn new() -> (r: FieldCoordinator)
        ensures
            r.field_state() == FieldState::Absent,
            r.clock_mode() == ClockMode::HighThroughput,
    {
        FieldCoordinator { field: FieldState::Absent, clock: ClockMode::HighThroughput }
    }

    /// The last observed field state.
    pub closed spec fn field_state(&self) -> FieldState {
        self.field
    }

    /// The clock mode currently in force.
    pub closed spec fn clock_mode(&self) -> ClockMode {
        self.clock
    }

    /// The last observed field state.
    pub fn field_state_now(&self) -> (f: FieldState)
        ensures
            f == self.field_state(),
    {
        self.field
    }

    /// The clock mode currently in force.
    pub fn clock_mode_now(&self) -> (m: ClockMode)
        ensures
            m == self.clock_mode(),
    {
        self.clock
    }

    /// Record a field transition and recompute the oscillator speed target.
    /// Returns the pair (previous mode, new mode) so the caller can rescale
    /// cycle-domain timers exactly when the mode changed.
    pub fn field_event(&mut self, new_field: FieldState, exchange_active: bool, millivolts: u32)
        -> (modes: (ClockMode, ClockMode))
        ensures
            final(self).field_state() == new_field,
            final(self).clock_mode() == spec_clock_target(new_field, exchange_active, millivolts),
            modes.0 == old(self).clock_mode(),
            modes.1 == final(self).clock_mode(),
    {
        let before = self.clock;
        self.field = new_field;
        self.clock = match new_field {
            FieldState::Absent => ClockMode::HighThroughput,
            FieldState::Present => if exchange_active && millivolts >= BOOST_THRESHOLD_MILLIVOLTS {
                ClockMode::HighThroughput
            } else {
                ClockMode::LowPower
            },
            FieldState::Halted => ClockMode::LowPower,
        };
        (before, self.clock)
    }

    /// React to a supply-voltage measurement without a field transition:
    /// the same speed decision, re-evaluated for the present field state.
    pub fn handle(&mut self, exchange_active: bool, millivolts: u32) -> (modes: (ClockMode, ClockMode))
        ensures
            final(self).field_state() == old(self).field_state(),
            final(self).clock_mode() == spec_clock_target(old(self).field_state(), exchange_active, millivolts),
            modes.0 == old(self).clock_mode(),
            modes.1 == final(self).clock_mode(),
    {
        let f = self.field;
        self.field_event(f, exchange_active, millivolts)
    }
}

} // verus!
