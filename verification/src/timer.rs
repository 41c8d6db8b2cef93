//! The interval timer: a counter of sub-ticks that the processor's clock
//! runs down, read over the bus as a count of whole intervals.

use vstd::prelude::*;
use crate::cpu::ClockHandler;
use crate::data_types::{Byte, Word};

verus! {

/// The count that a programmed timer starts from.
pub const TIMER_START: u32 = 0xff;

/// The timer.
pub struct Timer {
    /// Sub-ticks that are left.
    pub current_time: u32,
    /// Sub-ticks per count that is read.
    pub current_interval: u32,
    pub overflowed: bool,
}

/// The interval that a write to `addr` programs: the low twelve bits of the
/// address choose among 1, 8, 64 and 1024, and every other address gives 1.
pub open spec fn interval_at(addr: Word) -> u32 {
    let register = 0x0FFF & addr;
    if register == 0x294 {
        1
    } else if register == 0x295 {
        8
    } else if register == 0x296 {
        64
    } else if register == 0x297 {
        1024
    } else {
        1
    }
}

/// The address names one of the registers that program the interval: its
/// low twelve bits are 0x294 to 0x297.
pub open spec fn programs_interval(addr: Word) -> bool {
    0x294 <= 0x0FFF & addr && 0x0FFF & addr <= 0x297
}

/// The address names the register that the count is read from: its low
/// twelve bits are 0x284.
pub open spec fn reads_count(addr: Word) -> bool {
    0x0FFF & addr == 0x284
}

impl Timer {
    /// The timer restarted with an interval: 0xFF whole intervals are left.
    pub open spec fn restarted(&self, interval: u32) -> Self {
        Timer {
            current_time: (TIMER_START * interval) as u32,
            current_interval: interval,
            overflowed: self.overflowed,
        }
    }

    /// The count that is read: the whole intervals that are left, truncated
    /// to a byte.
    pub open spec fn count(&self) -> Byte {
        ((self.current_time / self.current_interval) % 0x100) as Byte
    }

    /// The byte that a read of `addr` yields.
    pub open spec fn byte_at(&self, addr: Word) -> Byte {
        if reads_count(addr) {
            self.count()
        } else {
            0
        }
    }

    /// A timer that has just been restarted reads 0xFF, whatever its
    /// interval.
    pub proof fn lemma_restarted_count(&self, interval: u32)
        requires
            0 < interval,
            TIMER_START * interval <= u32::MAX,
        ensures
            self.restarted(interval).count() == 0xFF,
    {
        assert((0xFF * interval) / (interval as int) == 0xFF) by (nonlinear_arith)
            requires
                0 < interval,
        ;
    }

    /// After a write to any address the timer reads 0xFF.
    pub proof fn lemma_programmed_count(&self, addr: Word)
        ensures
            self.restarted(interval_at(addr)).count() == 0xFF,
    {
        self.lemma_restarted_count(interval_at(addr));
    }

    /// A timer that has not been programmed: its interval is 0.
    pub fn new() -> (timer: Self)
        ensures
            timer == (Timer { current_time: 0xff, current_interval: 0, overflowed: true }),
    {
        Timer { current_time: 0xff, current_interval: 0, overflowed: true }
    }

    /// Restarts the timer with an interval.
    pub fn reset(&mut self, interval: u32)
        requires
            TIMER_START * interval <= u32::MAX,
        ensures
            *final(self) == old(self).restarted(interval),
    {
        self.current_time = TIMER_START * interval;
        self.current_interval = interval;
    }

    /// Reads a timer register. The count can be read only once an interval
    /// has been programmed.
    pub fn read_byte(&self, addr: Word) -> (data: Byte)
        requires
            reads_count(addr) ==> self.current_interval != 0,
        ensures
            data == self.byte_at(addr),
    {
        if 0x0FFF & addr == 0x284 {
            let count: u32 = self.current_time / self.current_interval;
            assert(count & 0xFF == count % 0x100) by (bit_vector);
            return (count & 0xFF) as Byte;
        }
        0x0
    }

    /// Writes a timer register: whatever the data, the timer restarts with
    /// the interval that the address programs.
    pub fn write_byte(&mut self, addr: Word, _data: Byte)
        ensures
            *final(self) == old(self).restarted(interval_at(addr)),
    {
        let addr = 0x0FFF & addr;
        let interval: u32 = match addr {
            0x294 => 1,
            0x295 => 8,
            0x296 => 64,
            0x297 => 1024,
            _ => 1,
        };

        self.reset(interval);
    }
}

impl ClockHandler for Timer {
    /// The timer after `clocks` sub-ticks: they are taken off what is left;
    /// where more are asked than are left, the counter starts again from
    /// 0xFF and the excess is taken off that, wrapping as the counter does.
    open spec fn after_clock(&self, clocks: u32) -> Self {
        if clocks > self.current_time {
            Timer {
                current_time: TIMER_START.wrapping_sub((clocks - self.current_time) as u32),
                ..*self
            }
        } else {
            Timer { current_time: (self.current_time - clocks) as u32, ..*self }
        }
    }

    fn handle_clock(&mut self, clocks: u32) {
        if clocks > self.current_time {
            let current = self.current_time;
            self.current_time = TIMER_START;

            // Need to add the rest of the clocks necessary
            self.current_time = self.current_time.wrapping_sub(clocks - current);
            return ;
        }
        self.current_time -= clocks;
    }
}

} // verus!
