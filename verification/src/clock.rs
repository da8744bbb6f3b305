//! The displayed time counter: real elapsed time is accumulated in whole
//! milliseconds and turned into ticks, one per full period.

use vstd::prelude::*;

verus! {

/// Length of one tick, in milliseconds.
pub const PERIOD: u64 = 1000;

/// Accumulated real time and the number of ticks it has amounted to.
///
/// The counter is for display only; it saturates at `u64::MAX` instead of
/// wrapping around.
#[derive(Clone, Copy, Debug, PartialEq, Eq, Structural)]
pub struct SimulationClock {
    /// Milliseconds gathered since the last tick.
    pub accumulated_ms: u64,
    /// Ticks counted since the last reset.
    pub ticks: u64,
}

impl SimulationClock {
    /// The clock at rest: nothing accumulated, no tick counted.
    pub open spec fn zero() -> SimulationClock {
        SimulationClock { accumulated_ms: 0, ticks: 0 }
    }

    /// The clock after `elapsed_ms` more milliseconds: every full period in
    /// the accumulated time becomes one tick, the remainder stays accumulated.
    pub open spec fn advanced(self, elapsed_ms: u64) -> SimulationClock {
        let total = self.accumulated_ms + elapsed_ms;
        let ticks = self.ticks + total / (PERIOD as int);
        SimulationClock {
            accumulated_ms: (total % (PERIOD as int)) as u64,
            ticks: if ticks > u64::MAX { u64::MAX } else { ticks as u64 },
        }
    }

    /// Time adds up: for two spans that together fit a `u64`, advancing by
    /// one and then by the other leaves the clock where advancing once by both
    /// together leaves it, also where the tick count has reached its largest
    /// value. No part of a period is lost between frames.
    pub proof fn lemma_advance_adds_up(self, first_ms: u64, second_ms: u64)
        requires
            first_ms + second_ms <= u64::MAX,
        ensures
            self.advanced(first_ms).advanced(second_ms) == self.advanced(
                (first_ms + second_ms) as u64,
            ),
    {
    }

    /// After an advance less than one period is left accumulated.
    pub proof fn lemma_advance_leaves_less_than_a_period(self, elapsed_ms: u64)
        ensures
            self.advanced(elapsed_ms).accumulated_ms < PERIOD,
            self.advanced(elapsed_ms).ticks >= self.ticks,
    {
    }

    /// A clock at rest.
    pub fn new() -> (clock: SimulationClock)
        ensures
            clock == SimulationClock::zero(),
    {
        SimulationClock { accumulated_ms: 0, ticks: 0 }
    }

    /// Puts the clock back to rest.
    pub fn reset(&mut self)
        ensures
            *final(self) == SimulationClock::zero(),
    {
        self.accumulated_ms = 0;
        self.ticks = 0;
    }

    /// Adds `elapsed_ms` to the accumulated time and counts one tick for each
    /// full period in it, however many periods one call spans.
    pub fn advance(&mut self, elapsed_ms: u64)
        ensures
            *final(self) == old(self).advanced(elapsed_ms),
    {
        let total: u128 = self.accumulated_ms as u128 + elapsed_ms as u128;
        let whole: u128 = total / (PERIOD as u128);
        let rest: u128 = total % (PERIOD as u128);
        let ticks: u128 = self.ticks as u128 + whole;
        self.accumulated_ms = rest as u64;
        self.ticks = if ticks > u64::MAX as u128 { u64::MAX } else { ticks as u64 };
    }

    /// The tick count, as shown to the player.
    pub fn time(&self) -> (ticks: u64)
        ensures
            ticks == self.ticks,
    {
        self.ticks
    }
}

} // verus!
