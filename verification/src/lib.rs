//! An emulator core for a MOS 6502 family processor on an Atari 2600 style
//! address space: the processor, its memory bus and the interval timer.

pub mod bit_utils;
pub mod cartridge;
pub mod clock;
pub mod cpu;
pub mod data_types;
pub mod error;
pub mod io_bus;
pub mod memory;
pub mod memory_bus;
pub mod memory_mock;
pub mod tia;
pub mod timer;
