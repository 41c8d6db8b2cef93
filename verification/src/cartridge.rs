//! The cartridge: a read-only image of 4 KiB, seen through the low twelve
//! bits of the address.

use vstd::prelude::*;
use crate::data_types::{Byte, Word};
use crate::error::EmulatorError;
use crate::memory_bus::{BusRead, BusWrite};

verus! {

/// Number of bytes in the one cartridge size that is known.
pub const FOUR_K: usize = 4096;

/// A cartridge of 4 KiB.
pub struct FourKCart {
    bytes: Vec<u8>,
}

impl FourKCart {
    #[verifier::type_invariant]
    spec fn well_formed(&self) -> bool {
        self.bytes.len() == FOUR_K
    }

    /// The image.
    pub closed spec fn view(&self) -> Seq<u8> {
        self.bytes@
    }
}

impl BusRead for FourKCart {
    open spec fn readable_at(&self, addr: Word) -> bool {
        true
    }

    open spec fn byte_at(&self, addr: Word) -> Byte {
        self@[(addr & 0x0FFF) as int]
    }

    fn read_byte(&self, addr: Word) -> (data: Byte) {
        proof {
            use_type_invariant(self);
        }
        let offset: Word = addr & 0x0FFF;
        assert(offset < 4096) by (bit_vector)
            requires
                offset == addr & 0x0FFF,
        ;
        let data = self.bytes[offset as usize];
        assert(self.byte_at(addr) == self@[(addr & 0x0FFF) as int]);
        data
    }
}

/// The cartridges that can be plugged in.
pub enum Cartridge {
    FourK(FourKCart),
}

impl Cartridge {
    /// The image.
    pub open spec fn view(&self) -> Seq<u8> {
        match self {
            Cartridge::FourK(f) => f@,
        }
    }

    /// Makes a cartridge of an image, which must have exactly 4096 bytes.
    pub fn from_bytes(bytes: Vec<u8>) -> (made: Result<Self, EmulatorError>)
        ensures
            bytes.len() == FOUR_K ==> made is Ok && made->Ok_0@ == bytes@,
            bytes.len() != FOUR_K ==> made == Err::<Self, EmulatorError>(
                EmulatorError::CartridgeSizeUnsupported(bytes.len()),
            ),
    {
        if bytes.len() == 4096 {
            Ok(Cartridge::FourK(FourKCart { bytes }))
        } else {
            Err(EmulatorError::CartridgeSizeUnsupported(bytes.len()))
        }
    }
}

impl BusRead for Cartridge {
    open spec fn readable_at(&self, addr: Word) -> bool {
        true
    }

    open spec fn byte_at(&self, addr: Word) -> Byte {
        self@[(addr & 0x0FFF) as int]
    }

    fn read_byte(&self, addr: Word) -> (data: Byte) {
        match self {
            Self::FourK(f) => f.read_byte(addr),
        }
    }
}

impl BusWrite for Cartridge {
    open spec fn writable_at(&self, addr: Word) -> bool {
        true
    }

    /// A cartridge is read-only: a write leaves it as it was.
    open spec fn after_write(&self, addr: Word, data: Byte) -> Self {
        *self
    }

    fn write_byte(&mut self, _addr: Word, _data: Byte) {
    }
}

} // verus!
