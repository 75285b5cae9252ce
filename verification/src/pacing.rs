//! Fixed-tick pacing of frame production.
//!
//! The main loop accumulates elapsed wall-clock time against a fixed tick
//! duration. When too much time has piled up — a ceiling of four tick
//! durations — whole ticks are first drained down to the ceiling so a long
//! stall cannot cause a runaway catch-up spiral; the remaining whole ticks
//! are then drained one at a time. After processing, the accumulator always
//! holds less than one tick duration.

use vstd::arithmetic::div_mod::lemma_fundamental_div_mod_converse;
use vstd::arithmetic::div_mod::lemma_mod_bound;
use vstd::prelude::*;

verus! {

/// The fixed tick duration, in microseconds: 1/32 of a second.
pub const TICK_MICROS: u64 = 31250;

/// The catch-up ceiling, in microseconds: four tick durations.
pub const TOO_MUCH_MICROS: u64 = 4 * TICK_MICROS;

/// Accumulates elapsed real time and converts it into whole ticks.
pub struct Pacer {
    accrued_micros: u64,
}

/// The accumulator left after starting from `acc` microseconds and
/// processing one elapsed delta: whole ticks are drained away, so only the
/// remainder below one tick duration stays.
pub open spec fn drained_accumulator(acc: int, delta: int) -> int {
    (acc + delta) % (TICK_MICROS as int)
}

/// The whole ticks one processing step yields: every whole tick duration in
/// the total counts, but never more than the ceiling's worth minus the one
/// tick that would reach it.
pub open spec fn drained_ticks(acc: int, delta: int) -> int {
    if acc + delta >= TOO_MUCH_MICROS as int {
        3
    } else {
        (acc + delta) / (TICK_MICROS as int)
    }
}

/// The accumulator after processing a whole sequence of elapsed deltas,
/// starting from an empty accumulator.
pub open spec fn paced_accumulator(deltas: Seq<u64>) -> int
    decreases deltas.len(),
{
    if deltas.len() == 0 {
        0
    } else {
        drained_accumulator(paced_accumulator(deltas.drop_last()), deltas.last() as int)
    }
}

impl Pacer {
    /// The accumulated time, in microseconds, not yet converted into ticks.
    pub closed spec fn accrued(&self) -> u64 {
        self.accrued_micros
    }

    /// Reads the accumulated time, in microseconds.
    pub fn accrued_micros(&self) -> (r: u64)
        ensures
            r == self.accrued(),
    {
        self.accrued_micros
    }

    /// Starts with an empty accumulator.
    pub fn new() -> (r: Self)
        ensures
            r.accrued() == 0,
    {
        Pacer { accrued_micros: 0 }
    }

    /// Adds one elapsed real-time delta and drains whole ticks: first down
    /// to the catch-up ceiling, then one at a time. Returns how many ticks
    /// were drained below the ceiling; the accumulator keeps the remainder,
    /// which is always less than one tick duration.
    pub fn advance(&mut self, delta_micros: u64) -> (ticks: u64)
        requires
            old(self).accrued() + delta_micros <= u64::MAX,
        ensures
            final(self).accrued() == drained_accumulator(
                old(self).accrued() as int,
                delta_micros as int,
            ),
            final(self).accrued() < TICK_MICROS,
            ticks == drained_ticks(old(self).accrued() as int, delta_micros as int),
    {
        let ghost total = old(self).accrued() + delta_micros;
        let ghost tick = TICK_MICROS as int;
        self.accrued_micros = self.accrued_micros + delta_micros;

        let ghost drained: int = 0;

        while self.accrued_micros >= TOO_MUCH_MICROS
            invariant
                0 <= drained,
                self.accrued_micros + drained * tick == total,
                drained == 0 || self.accrued_micros + tick >= TOO_MUCH_MICROS,
                tick == TICK_MICROS as int,
            decreases self.accrued_micros,
        {
            self.accrued_micros = self.accrued_micros - TICK_MICROS;
            proof {
                drained = drained + 1;
            }
        }

        let ghost after_ceiling = self.accrued_micros as int;
        let mut ticks: u64 = 0;

        while self.accrued_micros >= TICK_MICROS
            invariant
                ticks <= 3,
                self.accrued_micros + ticks * tick == after_ceiling,
                after_ceiling < TOO_MUCH_MICROS,
                tick == TICK_MICROS as int,
            decreases self.accrued_micros,
        {
            self.accrued_micros = self.accrued_micros - TICK_MICROS;
            ticks = ticks + 1;
        }

        proof {
            lemma_fundamental_div_mod_converse(
                total,
                tick,
                drained + ticks,
                self.accrued_micros as int,
            );
            if total >= TOO_MUCH_MICROS as int {
                assert(after_ceiling >= 3 * tick);
                lemma_fundamental_div_mod_converse(
                    after_ceiling,
                    tick,
                    ticks as int,
                    self.accrued_micros as int,
                );
                assert(ticks == after_ceiling / tick);
                lemma_fundamental_div_mod_converse(
                    after_ceiling,
                    tick,
                    3,
                    after_ceiling - 3 * tick,
                );
            } else {
                lemma_fundamental_div_mod_converse(
                    total,
                    tick,
                    ticks as int,
                    self.accrued_micros as int,
                );
            }
        }

        ticks
    }
}

/// Tick pacing never lets time pile up: for every sequence of elapsed
/// real-time deltas, the accumulator after processing holds less than one
/// tick duration, and so in particular never exceeds the catch-up ceiling.
pub proof fn lemma_tick_pacing_bounded(deltas: Seq<u64>)
    ensures
        0 <= paced_accumulator(deltas) < TICK_MICROS as int,
        paced_accumulator(deltas) < TOO_MUCH_MICROS as int,
    decreases deltas.len(),
{
    if deltas.len() > 0 {
        lemma_tick_pacing_bounded(deltas.drop_last());
        lemma_mod_bound(
            paced_accumulator(deltas.drop_last()) + deltas.last(),
            TICK_MICROS as int,
        );
    }
}

} // verus!
