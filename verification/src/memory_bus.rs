//! The memory bus: the device interfaces, the devices of the console, and the
//! address decoder that routes every access to one of them.

use vstd::prelude::*;
use crate::bit_utils::{bit_set, is_bit_set, is_bit_unset};
use crate::cartridge::Cartridge;
use crate::cpu::ClockHandler;
use crate::data_types::{Byte, Word};
use crate::error::EmulatorError;
use crate::memory::{lemma_ram_index, Memory};
use crate::timer::{interval_at, programs_interval, reads_count, Timer};

pub mod mmio_range;

verus! {

/// A device that can be read over the bus.
pub trait BusRead {
    /// The device answers a read of `addr`.
    spec fn readable_at(&self, addr: Word) -> bool;

    /// The byte that a read of `addr` yields.
    spec fn byte_at(&self, addr: Word) -> Byte;

    fn read_byte(&self, addr: Word) -> (data: Byte)
        requires
            self.readable_at(addr),
        ensures
            data == self.byte_at(addr),
    ;
}

/// A device that can be written over the bus.
pub trait BusWrite: Sized {
    /// The device takes a write to `addr`.
    spec fn writable_at(&self, addr: Word) -> bool;

    /// The device after `data` has been written to `addr`.
    spec fn after_write(&self, addr: Word, data: Byte) -> Self;

    fn write_byte(&mut self, addr: Word, data: Byte)
        requires
            old(self).writable_at(addr),
        ensures
            *final(self) == old(self).after_write(addr, data),
    ;
}

/// The little-endian word made of a low and a high byte.
pub open spec fn word_of(low: Byte, high: Byte) -> Word {
    (low as Word) | (high as Word) << 8
}

/// The address that follows `addr` within its page: the low byte is
/// incremented without a carry into the high byte.
pub open spec fn next_in_page(addr: Word) -> Word {
    (addr & 0xFF00) | (#[verifier::truncate] (addr as Byte)).wrapping_add(1) as Word
}

/// The whole address space as the processor sees it. On a bus that is put
/// together as it must be, no access fails: every address can be read and
/// written. The bus is a tick consumer too: it hands the cycles of every
/// instruction to the devices on it that count them.
pub trait MemoryBus: ClockHandler {
    /// The bus is put together as it must be.
    spec fn inv(&self) -> bool;

    /// The byte that a read of `addr` yields.
    spec fn peek(&self, addr: Word) -> Byte;

    /// The bus after `data` has been written to `addr`.
    spec fn poke(&self, addr: Word, data: Byte) -> Self;

    /// A write leaves the bus put together as it must be.
    proof fn lemma_poke_inv(&self, addr: Word, data: Byte)
        requires
            self.inv(),
        ensures
            self.poke(addr, data).inv(),
    ;

    /// Clock ticks leave the bus put together as it must be.
    proof fn lemma_after_clock_inv(&self, clocks: u32)
        requires
            self.inv(),
        ensures
            self.after_clock(clocks).inv(),
    ;

    fn read_byte(&self, addr: Word) -> (data: Byte)
        requires
            self.inv(),
        ensures
            data == self.peek(addr),
    ;

    fn write_byte(&mut self, addr: Word, data: Byte)
        requires
            old(self).inv(),
        ensures
            *final(self) == old(self).poke(addr, data),
            final(self).inv(),
    ;

    /// Writes into the zero page: only the low byte of `addr` counts.
    fn write_to_zero_page(&mut self, addr: Word, data: Byte)
        requires
            old(self).inv(),
        ensures
            *final(self) == old(self).poke(addr & 0x00FF, data),
            final(self).inv(),
    {
        self.write_byte(addr & 0x00FF, data)
    }

    /// Reads from the zero page: only the low byte of `addr` counts.
    fn read_from_zero_page(&self, addr: Word) -> (data: Byte)
        requires
            self.inv(),
        ensures
            data == self.peek(addr & 0x00FF),
    {
        self.read_byte(addr & 0x00FF)
    }

    /// Reads a word from the zero page: the low byte at `addr & 0xFF`, the
    /// high byte at `(addr + 1) & 0xFF`, so that 0xFF is followed by 0x00.
    fn read_word_zero_page(&self, addr: Word) -> (word: Word)
        requires
            self.inv(),
        ensures
            word == word_of(
                self.peek(addr & 0x00FF),
                self.peek(addr.wrapping_add(1) & 0x00FF),
            ),
    {
        let lower: Word = self.read_from_zero_page(addr) as Word;
        let upper: Word = self.read_from_zero_page(addr.wrapping_add(1)) as Word;
        lower | upper << 8
    }

    /// Reads a word whose low byte is at `addr` and whose high byte is at
    /// the next address within the same page: a pointer in the last cell of
    /// a page has its high byte in the first cell of that page.
    fn read_word_abs(&self, addr: Word) -> (word: Word)
        requires
            self.inv(),
        ensures
            word == word_of(self.peek(addr), self.peek(next_in_page(addr))),
    {
        let lower: Word = self.read_byte(addr) as Word;
        let lower_address: Byte = #[verifier::truncate] (addr as Byte);
        let lower_address: Byte = lower_address.wrapping_add(1);
        let upper: Word = self.read_byte((addr & 0xFF00) | lower_address as Word) as Word;
        lower | upper << 8
    }
}

/// The word that `read_word_zero_page` yields.
pub open spec fn word_zero_page<B: MemoryBus>(bus: B, addr: Word) -> Word {
    word_of(bus.peek(addr & 0x00FF), bus.peek(addr.wrapping_add(1) & 0x00FF))
}

/// The word that `read_word_abs` yields.
pub open spec fn word_abs<B: MemoryBus>(bus: B, addr: Word) -> Word {
    word_of(bus.peek(addr), bus.peek(next_in_page(addr)))
}

/// A device that is not there: reads yield 0, writes are dropped.
pub struct NullBus {}

impl BusRead for NullBus {
    open spec fn readable_at(&self, addr: Word) -> bool {
        true
    }

    open spec fn byte_at(&self, addr: Word) -> Byte {
        0
    }

    fn read_byte(&self, _addr: Word) -> (data: Byte) {
        0
    }
}

impl BusWrite for NullBus {
    open spec fn writable_at(&self, addr: Word) -> bool {
        true
    }

    open spec fn after_write(&self, addr: Word, data: Byte) -> Self {
        *self
    }

    fn write_byte(&mut self, _addr: Word, _data: Byte) {
    }
}

/// A device on the bus.
pub enum BusMember {
    Null(NullBus),
    MainMemory(Memory),
    Cartridge(Cartridge),
}

impl BusRead for BusMember {
    open spec fn readable_at(&self, addr: Word) -> bool {
        match self {
            BusMember::Null(null) => null.readable_at(addr),
            BusMember::MainMemory(mem) => mem.readable_at(addr),
            BusMember::Cartridge(cart) => cart.readable_at(addr),
        }
    }

    open spec fn byte_at(&self, addr: Word) -> Byte {
        match self {
            BusMember::Null(null) => null.byte_at(addr),
            BusMember::MainMemory(mem) => mem.byte_at(addr),
            BusMember::Cartridge(cart) => cart.byte_at(addr),
        }
    }

    fn read_byte(&self, addr: Word) -> (data: Byte) {
        match self {
            BusMember::Null(null) => null.read_byte(addr),
            BusMember::MainMemory(mem) => mem.read_byte(addr),
            BusMember::Cartridge(cart) => cart.read_byte(addr),
        }
    }
}

impl BusWrite for BusMember {
    open spec fn writable_at(&self, addr: Word) -> bool {
        match self {
            BusMember::Null(null) => null.writable_at(addr),
            BusMember::MainMemory(mem) => mem.writable_at(addr),
            BusMember::Cartridge(cart) => cart.writable_at(addr),
        }
    }

    open spec fn after_write(&self, addr: Word, data: Byte) -> Self {
        match self {
            BusMember::Null(null) => BusMember::Null(null.after_write(addr, data)),
            BusMember::MainMemory(mem) => BusMember::MainMemory(mem.after_write(addr, data)),
            BusMember::Cartridge(cart) => BusMember::Cartridge(cart.after_write(addr, data)),
        }
    }

    fn write_byte(&mut self, addr: Word, data: Byte) {
        match self {
            BusMember::Null(null) => null.write_byte(addr, data),
            BusMember::MainMemory(mem) => mem.write_byte(addr, data),
            BusMember::Cartridge(cart) => cart.write_byte(addr, data),
        }
    }
}

/// The part of the address space that an address falls in. Bits 7, 9 and 12
/// of the address decide, and nothing else.
#[derive(Clone, Copy, Debug, PartialEq, Eq, Structural)]
pub enum BusRegion {
    /// Bit 12 clear, bit 7 clear: the video and sound registers.
    Tia,
    /// Bit 12 clear, bit 7 set, bit 9 clear: the RAM.
    Ram,
    /// Bit 12 clear, bit 7 set, bit 9 set: the I/O and timer registers.
    PiaIo,
    /// Bit 12 set: the cartridge.
    Cartridge,
}

/// The region that an address is decoded to.
pub open spec fn region_of(addr: Word) -> BusRegion {
    if !bit_set(addr, 12) && !bit_set(addr, 7) {
        BusRegion::Tia
    } else if bit_set(addr, 7) && !bit_set(addr, 12) && !bit_set(addr, 9) {
        BusRegion::Ram
    } else if !bit_set(addr, 12) && bit_set(addr, 9) && bit_set(addr, 7) {
        BusRegion::PiaIo
    } else {
        BusRegion::Cartridge
    }
}

/// The first window of every region: the video and sound registers from
/// 0x0000, the RAM from 0x0080 to 0x00FF, the I/O and timer registers from
/// 0x0280 to 0x02FF, the cartridge from 0x1000 to 0x1FFF. Every other
/// address mirrors one of the regions.
pub proof fn lemma_first_windows(addr: Word)
    ensures
        addr <= 0x007F ==> region_of(addr) == BusRegion::Tia,
        0x0080 <= addr <= 0x00FF ==> region_of(addr) == BusRegion::Ram,
        0x0280 <= addr <= 0x02FF ==> region_of(addr) == BusRegion::PiaIo,
        0x1000 <= addr <= 0x1FFF ==> region_of(addr) == BusRegion::Cartridge,
{
    assert(addr <= 0x1FFF ==> (addr & (1u16 << 12u16) != 0 <==> addr >= 0x1000)) by (bit_vector);
    assert(addr <= 0x00FF ==> (addr & (1u16 << 7u16) != 0 <==> addr >= 0x0080)) by (bit_vector);
    assert(addr <= 0x00FF ==> addr & (1u16 << 9u16) == 0) by (bit_vector);
    assert(0x0280 <= addr <= 0x02FF ==> addr & (1u16 << 9u16) != 0 && addr & (1u16 << 7u16) != 0)
        by (bit_vector);
}

/// Decodes an address to the region it falls in.
pub fn decode_region(addr: Word) -> (region: BusRegion)
    ensures
        region == region_of(addr),
{
    if is_bit_unset(addr, 12) && is_bit_unset(addr, 7) {
        BusRegion::Tia
    } else if is_bit_set(addr, 7) && is_bit_unset(addr, 12) && is_bit_unset(addr, 9) {
        BusRegion::Ram
    } else if is_bit_unset(addr, 12) && is_bit_set(addr, 9) && is_bit_set(addr, 7) {
        BusRegion::PiaIo
    } else {
        BusRegion::Cartridge
    }
}

/// The console's bus: RAM, a cartridge, the interval timer, and a null
/// device that stands for the other registers.
pub struct AtariMemoryBus {
    main_memory: BusMember,
    null_bus: BusMember,
    cartridge: BusMember,
    timer: Timer,
}

impl AtariMemoryBus {
    /// The RAM cells.
    pub closed spec fn ram(&self) -> Seq<Byte> {
        self.main_memory->MainMemory_0.buffer@
    }

    /// The cartridge image.
    pub closed spec fn rom(&self) -> Seq<Byte> {
        self.cartridge->Cartridge_0@
    }

    /// The interval timer.
    pub closed spec fn interval_timer(&self) -> Timer {
        self.timer
    }

    /// The device that stands for the registers that are not there.
    pub closed spec fn null_device(&self) -> BusMember {
        self.null_bus
    }

    /// The timer answers a read of `addr`: the address names the count
    /// register among the I/O registers, and the timer has been programmed.
    pub open spec fn timer_answers(&self, addr: Word) -> bool {
        region_of(addr) == BusRegion::PiaIo && reads_count(addr)
            && self.interval_timer().current_interval != 0
    }

    /// The device that answers a read of `addr`, where the timer does not.
    pub closed spec fn read_member(&self, addr: Word) -> BusMember {
        match region_of(addr) {
            BusRegion::Tia => self.null_bus,
            BusRegion::Ram => self.main_memory,
            BusRegion::PiaIo => self.null_bus,
            BusRegion::Cartridge => self.cartridge,
        }
    }

    /// The device that takes a write to `addr`, where the timer does not.
    /// Writes to the cartridge region go to the null device, as do those to
    /// the registers that are not there.
    pub closed spec fn write_member(&self, addr: Word) -> BusMember {
        match region_of(addr) {
            BusRegion::Ram => self.main_memory,
            _ => self.null_bus,
        }
    }

    /// The bus with `member` in the place of the device that takes a write
    /// to `addr`.
    pub closed spec fn with_write_member(&self, addr: Word, member: BusMember) -> Self {
        match region_of(addr) {
            BusRegion::Ram => AtariMemoryBus { main_memory: member, ..*self },
            _ => AtariMemoryBus { null_bus: member, ..*self },
        }
    }

    /// Puts a bus together around a timer that has not been programmed. The
    /// main memory must be RAM and the cartridge a cartridge. The bus can be
    /// used if the device that stands for the missing registers is a null
    /// device: only that answers at every address.
    pub fn new(main_memory: BusMember, null_bus: BusMember, cartridge: BusMember) -> (made: Result<
        Self,
        EmulatorError,
    >)
        ensures
            made is Ok <==> main_memory is MainMemory && cartridge is Cartridge,
            made is Err ==> made->Err_0 == EmulatorError::BusConfigurationInvalid,
            made is Ok ==> {
                &&& made->Ok_0.ram() == main_memory->MainMemory_0.buffer@
                &&& made->Ok_0.rom() == cartridge->Cartridge_0@
                &&& made->Ok_0.null_device() == null_bus
                &&& made->Ok_0.interval_timer() == (Timer {
                    current_time: 0xff,
                    current_interval: 0,
                    overflowed: true,
                })
                &&& made->Ok_0.inv() <==> null_bus is Null
            },
    {
        let BusMember::MainMemory(_) = main_memory else {
            return Err(EmulatorError::BusConfigurationInvalid);
        };
        let BusMember::Cartridge(_) = cartridge else {
            return Err(EmulatorError::BusConfigurationInvalid);
        };
        Ok(AtariMemoryBus { main_memory, null_bus, cartridge, timer: Timer::new() })
    }

    /// Tells whether the bus can be used: whether every device on it is of
    /// the kind that its place asks for.
    pub fn is_usable(&self) -> (usable: bool)
        ensures
            usable == self.inv(),
    {
        let memory = match &self.main_memory {
            BusMember::MainMemory(_) => true,
            _ => false,
        };
        let null = match &self.null_bus {
            BusMember::Null(_) => true,
            _ => false,
        };
        let cartridge = match &self.cartridge {
            BusMember::Cartridge(_) => true,
            _ => false,
        };
        memory && null && cartridge
    }

    /// The interval timer.
    pub fn timer(&self) -> (timer: &Timer)
        ensures
            *timer == self.interval_timer(),
    {
        &self.timer
    }

    fn with_read_bus_member(&self, addr: Word) -> (member: &BusMember)
        requires
            self.inv(),
        ensures
            *member == self.read_member(addr),
            member.readable_at(addr),
    {
        proof {
            lemma_ram_index(addr);
        }
        match decode_region(addr) {
            BusRegion::Tia => &self.null_bus,
            BusRegion::Ram => &self.main_memory,
            BusRegion::PiaIo => &self.null_bus,
            BusRegion::Cartridge => &self.cartridge,
        }
    }

    fn with_write_bus_member(&mut self, addr: Word, data: Byte)
        requires
            old(self).inv(),
        ensures
            *final(self) == old(self).with_write_member(
                addr,
                old(self).write_member(addr).after_write(addr, data),
            ),
            final(self).inv(),
    {
        proof {
            lemma_ram_index(addr);
        }
        match decode_region(addr) {
            BusRegion::Ram => self.main_memory.write_byte(addr, data),
            _ => self.null_bus.write_byte(addr, data),
        }
    }

    /// What a read yields, region by region: 0 from the video and sound
    /// registers, the cell that the low seven bits of the address name
    /// from the RAM, the byte that the low twelve bits name from the
    /// cartridge, and from the I/O registers the timer's count where the
    /// timer answers, else 0.
    pub proof fn lemma_peek(&self, addr: Word)
        requires
            self.inv(),
        ensures
            self.ram().len() == 128,
            self.peek(addr) == match region_of(addr) {
                BusRegion::Tia => 0,
                BusRegion::Ram => self.ram()[addr as int % 128],
                BusRegion::PiaIo => if self.timer_answers(addr) {
                    self.interval_timer().count()
                } else {
                    0
                },
                BusRegion::Cartridge => self.rom()[(addr & 0x0FFF) as int],
            },
    {
        lemma_ram_index(addr);
    }

    /// What a write changes: the cell that the address names if it falls in
    /// the RAM; the timer, which restarts with the interval that the address
    /// programs, if it names one of the timer's registers among the I/O
    /// registers; and nothing at all if it falls anywhere else.
    pub proof fn lemma_poke(&self, addr: Word, data: Byte)
        requires
            self.inv(),
        ensures
            self.poke(addr, data).inv(),
            self.poke(addr, data).rom() == self.rom(),
            self.poke(addr, data).ram() == if region_of(addr) == BusRegion::Ram {
                self.ram().update(addr as int % 128, data)
            } else {
                self.ram()
            },
            self.poke(addr, data).interval_timer() == if region_of(addr) == BusRegion::PiaIo
                && programs_interval(addr) {
                self.interval_timer().restarted(interval_at(addr))
            } else {
                self.interval_timer()
            },
            region_of(addr) != BusRegion::Ram && !(region_of(addr) == BusRegion::PiaIo
                && programs_interval(addr)) ==> self.poke(addr, data) == *self,
    {
        lemma_ram_index(addr);
    }

    /// What clock ticks change: the timer counts them, and nothing else
    /// changes.
    pub proof fn lemma_after_clock(&self, clocks: u32)
        ensures
            self.after_clock(clocks).inv() == self.inv(),
            self.after_clock(clocks).ram() == self.ram(),
            self.after_clock(clocks).rom() == self.rom(),
            self.after_clock(clocks).null_device() == self.null_device(),
            self.after_clock(clocks).interval_timer() == self.interval_timer().after_clock(clocks),
    {
    }

    /// Every band of addresses that is decoded to the RAM shows the same 128
    /// cells: what was written through one address is read through every
    /// address of the RAM that has the same low seven bits, such as 0x0080
    /// and 0x0180.
    pub proof fn lemma_ram_mirrors(&self, written: Word, read: Word, data: Byte)
        requires
            self.inv(),
            region_of(written) == BusRegion::Ram,
            region_of(read) == BusRegion::Ram,
            written % 128 == read % 128,
        ensures
            self.poke(written, data).peek(read) == data,
    {
        self.lemma_poke(written, data);
        self.poke(written, data).lemma_peek(read);
        self.lemma_peek(read);
    }

    /// A write to any address that is decoded to the cartridge leaves the
    /// image, and the whole bus, as it was; and no write to any address
    /// changes the image.
    pub proof fn lemma_cartridge_immutable(&self, addr: Word, data: Byte)
        requires
            self.inv(),
        ensures
            self.poke(addr, data).rom() == self.rom(),
            region_of(addr) == BusRegion::Cartridge ==> self.poke(addr, data) == *self,
    {
        self.lemma_poke(addr, data);
    }

    /// The timer over the bus: a write to one of its registers restarts it,
    /// the clock ticks that the bus is handed run it down, and the count is
    /// read at the count register. After a write to 0x0295 and 8 ticks the
    /// count is 0xFE.
    pub proof fn lemma_timer_counts_down(&self, written: Word, data: Byte, clocks: u32, read: Word)
        requires
            self.inv(),
            region_of(written) == BusRegion::PiaIo,
            programs_interval(written),
            region_of(read) == BusRegion::PiaIo,
            reads_count(read),
        ensures
            self.poke(written, data).after_clock(clocks).peek(read) == self.interval_timer()
                .restarted(interval_at(written)).after_clock(clocks).count(),
            written == 0x0295 && clocks == 8 ==> self.poke(written, data).after_clock(
                clocks,
            ).peek(read) == 0xFE,
    {
        self.lemma_poke(written, data);
        let programmed = self.poke(written, data);
        programmed.lemma_after_clock(clocks);
        programmed.after_clock(clocks).lemma_peek(read);
        if written == 0x0295 && clocks == 8 {
            assert(0x0FFFu16 & 0x0295u16 == 0x295) by (bit_vector);
            let counted = self.interval_timer().restarted(8).after_clock(8);
            assert(counted.current_time == 2032 && counted.current_interval == 8);
            assert(2032int / 8 == 254);
        }
    }
}

impl ClockHandler for AtariMemoryBus {
    /// The timer counts the cycles; nothing else on the bus does.
    closed spec fn after_clock(&self, clocks: u32) -> Self {
        AtariMemoryBus { timer: self.timer.after_clock(clocks), ..*self }
    }

    fn handle_clock(&mut self, clocks: u32) {
        self.timer.handle_clock(clocks);
    }
}

impl MemoryBus for AtariMemoryBus {
    closed spec fn inv(&self) -> bool {
        &&& self.main_memory is MainMemory
        &&& self.null_bus is Null
        &&& self.cartridge is Cartridge
    }

    closed spec fn peek(&self, addr: Word) -> Byte {
        if self.timer_answers(addr) {
            self.timer.byte_at(addr)
        } else {
            self.read_member(addr).byte_at(addr)
        }
    }

    closed spec fn poke(&self, addr: Word, data: Byte) -> Self {
        if region_of(addr) == BusRegion::PiaIo && programs_interval(addr) {
            AtariMemoryBus { timer: self.timer.restarted(interval_at(addr)), ..*self }
        } else {
            self.with_write_member(addr, self.write_member(addr).after_write(addr, data))
        }
    }

    proof fn lemma_poke_inv(&self, addr: Word, data: Byte) {
    }

    proof fn lemma_after_clock_inv(&self, clocks: u32) {
    }

    fn read_byte(&self, addr: Word) -> (data: Byte) {
        let region = decode_region(addr);
        if region == BusRegion::PiaIo && 0x0FFF & addr == 0x284 && self.timer.current_interval != 0 {
            self.timer.read_byte(addr)
        } else {
            self.with_read_bus_member(addr).read_byte(addr)
        }
    }

    fn write_byte(&mut self, addr: Word, data: Byte) {
        let region = decode_region(addr);
        let register = 0x0FFF & addr;
        if region == BusRegion::PiaIo && 0x294 <= register && register <= 0x297 {
            self.timer.write_byte(addr, data);
        } else {
            self.with_write_bus_member(addr, data);
        }
    }
}

} // verus!
