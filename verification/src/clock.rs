//! Tick consumers besides the timer: a running total of cycles, and the sum
//! of the consumers that a console has, so that one processor can serve
//! both kinds.

use vstd::prelude::*;
use crate::cpu::ClockHandler;
use crate::timer::Timer;

verus! {

/// A running total of the cycles that were posted; it wraps at its maximum.
pub struct ClockCounter {
    pub count: u128,
}

impl ClockCounter {
    /// A counter at zero.
    pub fn new() -> (counter: Self)
        ensures
            counter.count == 0,
    {
        ClockCounter { count: 0 }
    }
}

impl ClockHandler for ClockCounter {
    open spec fn after_clock(&self, clocks: u32) -> Self {
        ClockCounter { count: self.count.wrapping_add(clocks as u128) }
    }

    fn handle_clock(&mut self, clocks: u32) {
        self.count = self.count.wrapping_add(clocks as u128);
    }
}

/// One of the tick consumers of a console.
pub enum ClockSink {
    Timer(Timer),
    Counter(ClockCounter),
}

impl ClockHandler for ClockSink {
    open spec fn after_clock(&self, clocks: u32) -> Self {
        match self {
            ClockSink::Timer(timer) => ClockSink::Timer(timer.after_clock(clocks)),
            ClockSink::Counter(counter) => ClockSink::Counter(counter.after_clock(clocks)),
        }
    }

    fn handle_clock(&mut self, clocks: u32) {
        match self {
            ClockSink::Timer(timer) => timer.handle_clock(clocks),
            ClockSink::Counter(counter) => counter.handle_clock(clocks),
        }
    }
}

} // verus!
