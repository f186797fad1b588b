//! Cadences and the tick clock.
//!
//! Time is a count of nanoseconds since a moment that the caller chooses,
//! read from a monotonic source.

use vstd::prelude::*;

verus! {

/// How often a loop runs: a positive number of cycles per second.
#[derive(Clone, Copy, Debug, PartialEq, Eq)]
pub struct Cadence {
    hz: u32,
}

impl Cadence {
    #[verifier::type_invariant]
    spec fn inv(self) -> bool {
        self.hz > 0
    }

    /// Cycles per second.
    pub closed spec fn spec_hz(&self) -> u32 {
        self.hz
    }

    /// A cadence of `hz` cycles per second: `None` for zero.
    pub fn from_hz(hz: u32) -> (r: Option<Cadence>)
        ensures
            hz == 0 ==> r is None,
            hz > 0 ==> r is Some && r->0.hz() == hz,
    {
        if hz == 0 {
            None
        } else {
            Some(Cadence { hz })
        }
    }

    /// Cycles per second.
    #[verifier::when_used_as_spec(spec_hz)]
    pub fn hz(&self) -> (hz: u32)
        ensures
            hz == self.hz(),
            hz > 0,
    {
        proof {
            use_type_invariant(self);
        }
        self.hz
    }

    /// The pause between two cycles in whole milliseconds, rounded down:
    /// 33 at 30 Hz, 16 at 60 Hz, 1000 at 1 Hz.
    pub fn period_millis(&self) -> (millis: u64)
        ensures
            self.hz() > 0,
            millis == 1000int / (self.hz() as int),
    {
        proof {
            use_type_invariant(self);
        }
        let hz: u64 = self.hz as u64;
        1000 / hz
    }
}

/// The later of two readings.
pub open spec fn later(a: u64, b: u64) -> u64 {
    if a >= b {
        a
    } else {
        b
    }
}

/// The time that a tick at `now` hands to the integrator when the previous
/// tick was at `last`: the time between them, and zero for a reading that
/// lies before the previous one.
pub open spec fn elapsed_since(last: u64, now: u64) -> nat {
    if now >= last {
        (now - last) as nat
    } else {
        0
    }
}

/// The sum of the times that the ticks at `readings` hand out, first to
/// last, for a clock whose previous tick was at `last`.
pub open spec fn total_elapsed(last: u64, readings: Seq<u64>) -> nat
    decreases readings.len(),
{
    if readings.len() == 0 {
        0
    } else {
        total_elapsed(last, readings.drop_last()) + elapsed_since(
            last_after(last, readings.drop_last()),
            readings.last(),
        )
    }
}

/// The time of the previous tick after the ticks at `readings`.
pub open spec fn last_after(last: u64, readings: Seq<u64>) -> u64
    decreases readings.len(),
{
    if readings.len() == 0 {
        last
    } else {
        later(last_after(last, readings.drop_last()), readings.last())
    }
}

/// The simulation clock. All it keeps is the time of the previous tick.
#[derive(Clone, Copy, Debug, PartialEq, Eq)]
pub struct SimulationClock {
    last_tick: u64,
}

impl SimulationClock {
    /// The time of the previous tick.
    pub closed spec fn spec_last_tick(&self) -> u64 {
        self.last_tick
    }

    /// A clock whose previous tick is `now`.
    pub fn start(now: u64) -> (clock: SimulationClock)
        ensures
            clock.last_tick() == now,
    {
        SimulationClock { last_tick: now }
    }

    /// The time of the previous tick.
    #[verifier::when_used_as_spec(spec_last_tick)]
    pub fn last_tick(&self) -> (t: u64)
        ensures
            t == self.last_tick(),
    {
        self.last_tick
    }

    /// Ticks at `now`: returns the time to integrate over, which is never
    /// negative, and remembers the later of the two readings.
    pub fn tick(&mut self, now: u64) -> (elapsed: u64)
        ensures
            elapsed == elapsed_since(old(self).last_tick(), now),
            final(self).last_tick() == later(old(self).last_tick(), now),
    {
        if now >= self.last_tick {
            let elapsed = now - self.last_tick;
            self.last_tick = now;
            elapsed
        } else {
            0
        }
    }
}

/// Over any run of ticks the times handed to the integrator add up to the
/// time between the first and the last tick kept: none is lost and none is
/// counted twice.
pub proof fn lemma_ticks_add_up(last: u64, readings: Seq<u64>)
    ensures
        last_after(last, readings) >= last,
        total_elapsed(last, readings) == last_after(last, readings) - last,
    decreases readings.len(),
{
    if readings.len() > 0 {
        lemma_ticks_add_up(last, readings.drop_last());
    }
}

} // verus!
