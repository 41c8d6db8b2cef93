//! The console's RAM: 128 bytes, seen at every address whose bit 7 is set
//! once the bus has picked it.

use vstd::prelude::*;
use vstd::array::spec_array_update;
use crate::bit_utils::bit_set;
use crate::data_types::{Byte, Word};
use crate::memory_bus::{BusRead, BusWrite};

verus! {

/// Number of bytes of RAM.
pub const MEM_SIZE: usize = 128;

/// The RAM cells.
pub struct Memory {
    pub buffer: [Byte; 128],
}

/// The cell that `addr` stands for: `(addr - 0x80) & 0xFF`, the distance from
/// 0x80 taken modulo 256.
pub open spec fn ram_index(addr: Word) -> int {
    (addr - 0x80) % 256
}

/// The index is a cell of the RAM exactly for the addresses with bit 7 set,
/// and then it is the low seven bits of the address: every 128-byte band
/// with bit 7 set mirrors the same cells.
pub proof fn lemma_ram_index(addr: Word)
    ensures
        ram_index(addr) < MEM_SIZE <==> bit_set(addr, 7),
        bit_set(addr, 7) ==> ram_index(addr) == addr % 128,
{
    assert((addr & (1u16 << 7u16) != 0) <==> (addr % 256 >= 128)) by (bit_vector);
}

fn convert_addr(addr: Word) -> (index: usize)
    ensures
        index == ram_index(addr),
{
    let masked: Word = 0xFF & addr.wrapping_sub(0x80);
    assert(masked == addr.wrapping_sub(0x80) % 256) by (bit_vector)
        requires
            masked == 0xFFu16 & addr.wrapping_sub(0x80),
    ;
    masked as usize
}

impl Memory {
    /// RAM with every cell zero.
    pub fn new() -> (memory: Self)
        ensures
            forall|i: int| 0 <= i < MEM_SIZE ==> memory.buffer[i] == 0,
    {
        Memory { buffer: [0;128] }
    }
}

impl BusRead for Memory {
    open spec fn readable_at(&self, addr: Word) -> bool {
        ram_index(addr) < MEM_SIZE
    }

    open spec fn byte_at(&self, addr: Word) -> Byte {
        self.buffer[ram_index(addr)]
    }

    fn read_byte(&self, addr: Word) -> (data: Byte) {
        let addr = convert_addr(addr);
        self.buffer[addr]
    }
}

impl BusWrite for Memory {
    open spec fn writable_at(&self, addr: Word) -> bool {
        ram_index(addr) < MEM_SIZE
    }

    open spec fn after_write(&self, addr: Word, data: Byte) -> Self {
        Memory { buffer: spec_array_update(self.buffer, ram_index(addr), data) }
    }

    fn write_byte(&mut self, addr: Word, data: Byte) {
        let addr = convert_addr(addr);
        self.buffer[addr] = data
    }
}

} // verus!
