//! A stand-in for the console's bus: 64 KiB of plain cells, one for every
//! address, so that a program can be run with nothing around the processor.

use vstd::prelude::*;
use vstd::array::spec_array_update;
use crate::cpu::ClockHandler;
use crate::data_types::{Byte, Word};
use crate::memory_bus::MemoryBus;

verus! {

/// A memory with a cell of its own for every address.
pub struct MemoryMock {
    pub memory_locations: [Byte; 65536],
}

impl MemoryMock {
    /// A memory with every cell zero.
    pub fn new() -> (memory: Self)
        ensures
            forall|addr: Word| memory.peek(addr) == 0,
    {
        MemoryMock { memory_locations: [0;65536] }
    }

    /// Puts a byte into a cell.
    pub fn add_byte(&mut self, addr: Word, data: Byte)
        ensures
            *final(self) == old(self).poke(addr, data),
    {
        self.memory_locations[addr as usize] = data;
    }

    /// A cell holds what was last written to it, and a write to one cell
    /// changes no other.
    pub proof fn lemma_peek_poke(&self, written: Word, data: Byte, read: Word)
        ensures
            self.poke(written, data).peek(read) == if read == written {
                data
            } else {
                self.peek(read)
            },
    {
    }
}

impl ClockHandler for MemoryMock {
    /// Nothing in this memory counts cycles.
    open spec fn after_clock(&self, clocks: u32) -> Self {
        *self
    }

    fn handle_clock(&mut self, _clocks: u32) {
    }
}

impl MemoryBus for MemoryMock {
    open spec fn inv(&self) -> bool {
        true
    }

    open spec fn peek(&self, addr: Word) -> Byte {
        self.memory_locations[addr as int]
    }

    open spec fn poke(&self, addr: Word, data: Byte) -> Self {
        MemoryMock { memory_locations: spec_array_update(self.memory_locations, addr as int, data) }
    }

    proof fn lemma_poke_inv(&self, addr: Word, data: Byte) {
    }

    proof fn lemma_after_clock_inv(&self, clocks: u32) {
    }

    fn read_byte(&self, addr: Word) -> (data: Byte) {
        self.memory_locations[addr as usize]
    }

    fn write_byte(&mut self, addr: Word, data: Byte) {
        self.add_byte(addr, data);
    }
}

} // verus!
