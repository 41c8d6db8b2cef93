//! The machine's value types.

use vstd::prelude::*;

verus! {

/// An 8-bit value: a register, a memory cell, an operand.
pub type Byte = u8;

/// A 16-bit value: an address or a two-byte operand.
pub type Word = u16;

/// A byte read as a two's-complement number.
pub type SignedByte = i8;

/// A word read as a two's-complement number.
pub type SignedWord = i16;

} // verus!
