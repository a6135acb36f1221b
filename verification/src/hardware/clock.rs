//! The two-phase clock that paces the bus.
//!
//! One bus transaction takes one cycle: the pacing side raises the phase
//! (`tick`), the CPU does its access and lowers the phase again (`tock`),
//! which counts the cycle. Each side can ask whether it is its turn. Nothing
//! here blocks: where a caller would have to wait for the other side, the
//! call changes nothing and says so, and the caller tries again later.

use vstd::prelude::*;

verus! {

/// The phase and the cycle counter of a clock.
pub struct ClockModel {
    /// Whether the phase is high: a tick was given and not yet answered.
    pub high: bool,
    /// The number of cycles completed, modulo 2^64.
    pub cycles: u64,
}

impl ClockModel {
    /// The clock after `tick`.
    pub open spec fn tick(self) -> ClockModel {
        if self.high {
            self
        } else {
            ClockModel { high: true, cycles: self.cycles }
        }
    }

    /// The clock after `tock`.
    pub open spec fn tock(self) -> ClockModel {
        if self.high {
            ClockModel { high: false, cycles: next_cycle(self.cycles) }
        } else {
            self
        }
    }

    /// The clock after one full cycle that starts wherever the phase is:
    /// the phase ends low and one more cycle is counted.
    pub open spec fn cycle(self) -> ClockModel {
        ClockModel { high: false, cycles: next_cycle(self.cycles) }
    }
}

/// The cycle count that follows `n`. The counter wraps.
pub open spec fn next_cycle(n: u64) -> u64 {
    if n == u64::MAX {
        0
    } else {
        (n + 1) as u64
    }
}

/// A two-phase clock with a 64-bit cycle counter.
#[derive(Clone, Copy, Debug)]
pub struct Clock {
    ticks: u64,
    state: bool,
}

impl View for Clock {
    type V = ClockModel;

    closed spec fn view(&self) -> ClockModel {
        ClockModel { high: self.state, cycles: self.ticks }
    }
}

impl Clock {
    /// A clock at cycle zero with its phase low.
    pub fn new() -> (clk: Clock)
        ensures
            clk@ == (ClockModel { high: false, cycles: 0 }),
    {
        Clock { ticks: 0, state: false }
    }

    /// The number of cycles completed.
    pub fn ticks(&self) -> (n: u64)
        ensures
            n == self@.cycles,
    {
        self.ticks
    }

    /// Raises the phase if it is low. The result says whether it did; where
    /// it is `false` the phase was high already, the clock is unchanged and
    /// the caller has to wait for a `tock`.
    pub fn tick(&mut self) -> (done: bool)
        ensures
            done == !old(self)@.high,
            final(self)@ == old(self)@.tick(),
    {
        if self.state {
            false
        } else {
            self.state = true;
            true
        }
    }

    /// Lowers the phase if it is high and counts the cycle. The result says
    /// whether it did; where it is `false` the phase was low already, the
    /// clock is unchanged and the caller has to wait for a `tick`.
    pub fn tock(&mut self) -> (done: bool)
        ensures
            done == old(self)@.high,
            final(self)@ == old(self)@.tock(),
    {
        if self.state {
            self.state = false;
            self.ticks = self.ticks.wrapping_add(1);
            true
        } else {
            false
        }
    }

    /// Whether a tick was given: the phase is high. Changes nothing.
    pub fn wait_tick(&self) -> (ready: bool)
        ensures
            ready == self@.high,
    {
        self.state
    }

    /// Whether the last tick was answered: the phase is low. Changes
    /// nothing.
    pub fn wait_tock(&self) -> (ready: bool)
        ensures
            ready == !self@.high,
    {
        !self.state
    }

    /// Runs one full cycle from wherever the phase is: gives the tick if
    /// none is pending, then answers it.
    pub fn cycle(&mut self)
        ensures
            final(self)@ == old(self)@.cycle(),
    {
        if !self.wait_tick() {
            self.tick();
        }
        self.tock();
    }
}

impl Default for Clock {
    fn default() -> (clk: Clock)
        ensures
            clk@ == (ClockModel { high: false, cycles: 0 }),
    {
        Clock::new()
    }
}

/// The counter never runs backwards while it does not wrap, and a `tock`
/// that is due adds exactly one.
pub proof fn lemma_tock_counts(c: ClockModel)
    requires
        c.cycles < u64::MAX,
    ensures
        c.tock().cycles >= c.cycles,
        c.tick().cycles == c.cycles,
        c.high ==> c.tock().cycles == c.cycles + 1,
        c.tick().tock().cycles == c.cycles + 1,
{
}

} // verus!
