//! The I/O register file as far as it is there: the timer's registers.

use vstd::prelude::*;
use crate::data_types::{Byte, Word};
use crate::memory_bus::BusRead;
use crate::timer::{programs_interval, reads_count, Timer};

verus! {

/// The I/O registers, read-only, in front of a timer.
pub struct IOBus<'a> {
    pub timer: &'a Timer,
}

/// The address is one of the timer's registers: its low twelve bits are
/// 0x284, or 0x294 to 0x297.
pub open spec fn is_timer_register(addr: Word) -> bool {
    reads_count(addr) || programs_interval(addr)
}

impl<'a> IOBus<'a> {
    /// The I/O registers in front of `timer`.
    pub fn new(timer: &'a Timer) -> (bus: Self)
        ensures
            bus.timer == timer,
    {
        Self { timer }
    }
}

impl BusRead for IOBus<'_> {
    /// The count register can be read only once the timer has been
    /// programmed.
    open spec fn readable_at(&self, addr: Word) -> bool {
        reads_count(addr) ==> self.timer.current_interval != 0
    }

    /// The timer answers for its registers, of which only the count yields
    /// anything but 0; every other address yields 0.
    open spec fn byte_at(&self, addr: Word) -> Byte {
        if is_timer_register(addr) {
            self.timer.byte_at(addr)
        } else {
            0
        }
    }

    fn read_byte(&self, addr: Word) -> (data: Byte) {
        let register = 0x0FFF & addr;
        if register == 0x284 || (0x294 <= register && register <= 0x297) {
            return self.timer.read_byte(addr);
        }
        0
    }
}

} // verus!
