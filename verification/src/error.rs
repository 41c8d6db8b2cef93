//! What can go wrong while a machine is put together or run.

use vstd::prelude::*;
use crate::data_types::{Byte, Word};

verus! {

/// The ways in which setting up or running the machine fails.
#[derive(Clone, Copy, Debug, PartialEq, Eq, Structural)]
pub enum EmulatorError {
    /// A cartridge image had this many bytes, which is no size a cartridge has.
    CartridgeSizeUnsupported(usize),
    /// The byte fetched as an opcode, and the address it came from, when the
    /// byte names no instruction.
    UnknownOpcode(Byte, Word),
    /// The bus was handed a device of the wrong kind as its main memory or as
    /// its cartridge.
    BusConfigurationInvalid,
}

} // verus!
