//! The processor: its registers, the fetch-decode-execute cycle, and the
//! fan-out of cycle counts to the tick consumers.

use vstd::prelude::*;
use crate::bit_utils::{
    is_bit_set,
    is_bit_set_byte,
    lemma_zero_page_mask,
    lemma_zero_page_sum,
    page_crossed,
};
use crate::cpu::code::Opcode;
use crate::cpu::laws::lemma_cycle_cost_bounds;
use crate::cpu::semantics::{
    branch_cycles,
    branch_target,
    flag_bit,
    indexed,
    low_bit,
    pull_byte,
    pull_word,
    push_byte,
    push_word,
    sign_bit,
    signed_overflow,
    tick_all,
    with_page_penalty,
    Machine,
    Registers,
};
use crate::data_types::{Byte, Word};
use crate::error::EmulatorError;
use crate::memory_bus::{word_of, MemoryBus};

pub mod code;
pub mod laws;
pub mod semantics;

verus! {

/// Something that reads one instruction from memory at the program counter.
pub trait OpcodeDecoder: Sized {
    /// Reads one instruction and moves the program counter past what was
    /// read. Nothing else changes.
    fn decode_opcode<H: ClockHandler, B: MemoryBus>(cpu: &mut Cpu<H>, memory: &mut B) -> (decoded:
        Result<Self, EmulatorError>)
        requires
            old(memory).inv(),
        ensures
            final(cpu).on(*final(memory)) == old(cpu).on(*old(memory)).at(final(cpu).pc),
    ;
}

/// A tick consumer: it is handed the cycle count of every instruction once
/// the instruction is complete.
pub trait ClockHandler: Sized {
    /// The consumer after it has been handed `clocks` cycles.
    spec fn after_clock(&self, clocks: u32) -> Self;

    fn handle_clock(&mut self, clocks: u32)
        ensures
            *final(self) == old(self).after_clock(clocks),
    ;
}

/// The processor.
pub struct Cpu<H> {
    pub pc: Word,
    pub sp: Byte,
    pub ra: Byte,
    pub rx: Byte,
    pub ry: Byte,
    pub carry: bool,
    pub zero: bool,
    pub interrupt_disable: bool,
    pub decimal_mode: bool,
    pub break_command: bool,
    pub overflow: bool,
    pub negative: bool,
    pub clock_cycles: u128,
    pub clock_handlers: Vec<H>,
}

fn flag_value(flag: bool) -> (bit: Byte)
    ensures
        bit == flag_bit(flag),
{
    if flag {
        1
    } else {
        0
    }
}

fn sign_of(value: Byte) -> (set: bool)
    ensures
        set == sign_bit(value),
{
    assert(((value as u16) & (1u16 << 7u16) != 0) == (value & (1u8 << 7u8) != 0)) by (bit_vector);
    is_bit_set(value as Word, 7)
}

fn low_bit_of(value: Byte) -> (set: bool)
    ensures
        set == low_bit(value),
{
    assert(((value as u16) & (1u16 << 0u16) != 0) == (value & (1u8 << 0u8) != 0)) by (bit_vector);
    is_bit_set(value as Word, 0)
}

fn has_overflow(a: Byte, b: Byte, out: Byte) -> (overflowed: bool)
    ensures
        overflowed == signed_overflow(a, b, out),
{
    let a7 = sign_of(a);
    let b7 = sign_of(b);
    let out7 = sign_of(out);

    if a7 && b7 {
        return !out7;
    }
    if !(a7 || b7) {
        return out7;
    }
    false
}

impl<H: ClockHandler> Cpu<H> {
    /// The registers that a program can see.
    pub open spec fn registers(&self) -> Registers {
        Registers {
            pc: self.pc,
            sp: self.sp,
            ra: self.ra,
            rx: self.rx,
            ry: self.ry,
            carry: self.carry,
            zero: self.zero,
            interrupt_disable: self.interrupt_disable,
            decimal_mode: self.decimal_mode,
            break_command: self.break_command,
            overflow: self.overflow,
            negative: self.negative,
        }
    }

    /// The machine that this processor and a memory make up.
    pub open spec fn on<B: MemoryBus>(&self, bus: B) -> Machine<H, B> {
        Machine {
            regs: self.registers(),
            cycles: self.clock_cycles,
            sinks: self.clock_handlers@,
            bus,
        }
    }

    /// A processor with every register zero, every flag clear, no cycle
    /// counted and no tick consumer.
    pub fn new() -> (cpu: Self)
        ensures
            cpu.registers() == (Registers {
                pc: 0,
                sp: 0,
                ra: 0,
                rx: 0,
                ry: 0,
                carry: false,
                zero: false,
                interrupt_disable: false,
                decimal_mode: false,
                break_command: false,
                overflow: false,
                negative: false,
            }),
            cpu.clock_cycles == 0,
            cpu.clock_handlers@ == Seq::<H>::empty(),
    {
        Cpu {
            pc: 0,
            sp: 0,
            ra: 0,
            rx: 0,
            ry: 0,
            carry: false,
            zero: false,
            interrupt_disable: false,
            decimal_mode: false,
            break_command: false,
            overflow: false,
            negative: false,
            clock_cycles: 0,
            clock_handlers: Vec::new(),
        }
    }

    /// Puts the stack pointer at the top of the stack page.
    pub fn init(&mut self)
        ensures
            final(self).registers() == (Registers { sp: 0xff, ..old(self).registers() }),
            final(self).clock_cycles == old(self).clock_cycles,
            final(self).clock_handlers == old(self).clock_handlers,
    {
        self.sp = 0xff;
    }

    /// Sets the registers, and the flags from a packed flag byte.
    pub fn initialize_initial_state(
        &mut self,
        pc: Word,
        sp: Byte,
        ra: Byte,
        rx: Byte,
        ry: Byte,
        flags: Byte,
    )
        ensures
            final(self).registers() == (Registers { pc, sp, ra, rx, ry, ..old(self).registers() })
                .with_status(flags),
            final(self).clock_cycles == old(self).clock_cycles,
            final(self).clock_handlers == old(self).clock_handlers,
    {
        self.pc = pc;
        self.sp = sp;
        self.ra = ra;
        self.rx = rx;
        self.ry = ry;
        self.carry = is_bit_set_byte(flags, 0);
        self.zero = is_bit_set_byte(flags, 1);
        self.interrupt_disable = is_bit_set_byte(flags, 2);
        self.decimal_mode = is_bit_set_byte(flags, 3);
        self.break_command = is_bit_set_byte(flags, 4);
        self.overflow = is_bit_set_byte(flags, 6);
        self.negative = is_bit_set_byte(flags, 7);
    }

    /// Adds a tick consumer behind those that are there.
    pub fn register_clock_handler(&mut self, handler: H)
        ensures
            final(self).clock_handlers@ == old(self).clock_handlers@.push(handler),
            final(self).registers() == old(self).registers(),
            final(self).clock_cycles == old(self).clock_cycles,
    {
        self.clock_handlers.push(handler);
    }

    /// The packed flag byte.
    pub fn register_values(&self) -> (flags: Byte)
        ensures
            flags == self.registers().status(),
    {
        flag_value(self.carry) | flag_value(self.zero) << 1 | flag_value(self.interrupt_disable)
            << 2 | flag_value(self.decimal_mode) << 3 | flag_value(self.break_command) << 4 | 1
            << 5 | flag_value(self.overflow) << 6 | flag_value(self.negative) << 7
    }

    /// Posts a cycle count: the counter advances by it, and every tick
    /// consumer is handed it, in the order in which they were added.
    pub fn increment_clock(&mut self, cycles_used: u32)
        ensures
            final(self).registers() == old(self).registers(),
            final(self).clock_cycles == old(self).clock_cycles.wrapping_add(cycles_used as u128),
            final(self).clock_handlers@ == tick_all(old(self).clock_handlers@, cycles_used),
    {
        let ghost before = self.clock_handlers@;
        self.clock_cycles = self.clock_cycles.wrapping_add(cycles_used as u128);

        let mut i: usize = 0;
        while i < self.clock_handlers.len()
            invariant
                i <= self.clock_handlers.len(),
                self.clock_handlers.len() == before.len(),
                self.registers() == old(self).registers(),
                self.clock_cycles == old(self).clock_cycles.wrapping_add(cycles_used as u128),
                forall|j: int| 0 <= j < i ==> self.clock_handlers[j] == before[j].after_clock(cycles_used),
                forall|j: int| i <= j < before.len() ==> self.clock_handlers[j] == before[j],
            decreases self.clock_handlers.len() - i,
        {
            self.clock_handlers[i].handle_clock(cycles_used);
            i += 1;
        }
        assert(self.clock_handlers@ =~= tick_all(before, cycles_used));
    }

    /// The processor has retired an instruction since `before`: its
    /// registers are `regs`, and `clocks` cycles have been posted.
    pub open spec fn retired(&self, before: &Self, regs: Registers, clocks: u32) -> bool {
        &&& self.registers() == regs
        &&& self.clock_cycles == before.clock_cycles.wrapping_add(clocks as u128)
        &&& self.clock_handlers@ == tick_all(before.clock_handlers@, clocks)
    }

    /// The processor differs from `before` in its registers alone, which
    /// are `regs`.
    pub open spec fn updated(&self, before: &Self, regs: Registers) -> bool {
        &&& self.registers() == regs
        &&& self.clock_cycles == before.clock_cycles
        &&& self.clock_handlers == before.clock_handlers
    }

    fn set_negative(&mut self, byte: Byte)
        ensures
            final(self).updated(
                old(self),
                Registers { negative: sign_bit(byte), ..old(self).registers() },
            ),
    {
        assert((0b10000000u8 & byte > 0) == (byte & (1u8 << 7u8) != 0)) by (bit_vector);
        self.negative = 0b10000000 & byte > 0;
    }

    fn set_zero(&mut self, byte: Byte)
        ensures
            final(self).updated(old(self), Registers { zero: byte == 0, ..old(self).registers() }),
    {
        self.zero = byte == 0;
    }

    fn set_overflow(&mut self, byte: Byte)
        ensures
            final(self).updated(
                old(self),
                Registers { overflow: sign_bit(byte), ..old(self).registers() },
            ),
    {
        self.overflow = sign_of(byte);
    }

    fn load_flags_from_artith(&mut self, value: Byte)
        ensures
            final(self).updated(
                old(self),
                Registers { overflow: sign_bit(value), ..old(self).registers().with_zn(value) },
            ),
    {
        self.set_zero(value);
        self.set_negative(value);
        self.set_overflow(value);
    }

    fn load_ra(&mut self, value: Byte)
        ensures
            final(self).updated(old(self), old(self).registers().load_a(value)),
    {
        self.ra = value;
        self.set_negative(value);
        self.set_zero(value);
    }

    fn load_rx(&mut self, value: Byte)
        ensures
            final(self).updated(old(self), old(self).registers().load_x(value)),
    {
        self.rx = value;
        self.set_negative(value);
        self.set_zero(value);
    }

    fn load_ry(&mut self, value: Byte)
        ensures
            final(self).updated(old(self), old(self).registers().load_y(value)),
    {
        self.ry = value;
        self.set_negative(value);
        self.set_zero(value);
    }

    fn add_register(&mut self, operand: Byte)
        ensures
            final(self).updated(old(self), old(self).registers().add_with_carry(operand)),
    {
        let original = self.ra;
        let value = original.wrapping_add(operand).wrapping_add(flag_value(self.carry));
        self.ra = value;
        self.negative = sign_of(value);
        self.zero = value == 0;
        self.overflow = has_overflow(original, operand, value);
        self.carry = self.overflow;
    }

    fn sub_register(&mut self, operand: Byte)
        ensures
            final(self).updated(old(self), old(self).registers().subtract_with_carry(operand)),
    {
        let original = self.ra;
        let value = original.wrapping_add(flag_value(self.carry)).wrapping_sub(1).wrapping_sub(
            operand,
        );
        self.ra = value;
        self.negative = sign_of(value);
        self.zero = value == 0;
        self.overflow = has_overflow(original, operand, value);
        self.carry = self.overflow;
    }

    /// A branch: where it is taken, the program counter moves by the signed
    /// displacement, and the cycles depend on whether it leaves the page.
    fn execute_branch(&mut self, addr: Byte, taken: bool)
        ensures
            final(self).retired(
                old(self),
                old(self).registers().branch(taken, addr),
                branch_cycles(old(self).pc, taken, addr),
            ),
    {
        if !taken {
            self.increment_clock(2);
            return ;
        }
        let current_pc = self.pc;
        let new_value: Word = if addr < 0x80 {
            current_pc.wrapping_add(addr as Word)
        } else {
            current_pc.wrapping_sub(0x100 - addr as Word)
        };
        assert(new_value == branch_target(current_pc, addr));
        self.pc = new_value;
        let clock_count: u32 = if page_crossed(current_pc, self.pc) {
            5
        } else {
            3
        };
        self.increment_clock(clock_count);
    }

    fn pop_stack_byte<B: MemoryBus>(&mut self, bus: &B) -> (value: Byte)
        requires
            bus.inv(),
        ensures
            value == pull_byte(*bus, old(self).sp),
            final(self).updated(
                old(self),
                Registers { sp: old(self).sp.wrapping_add(1), ..old(self).registers() },
            ),
    {
        self.sp = self.sp.wrapping_add(1);
        bus.read_byte((self.sp as Word) + 0x100)
    }

    fn pop_stack_word<B: MemoryBus>(&mut self, bus: &B) -> (value: Word)
        requires
            bus.inv(),
        ensures
            value == pull_word(*bus, old(self).sp),
            final(self).updated(
                old(self),
                Registers { sp: old(self).sp.wrapping_add(2), ..old(self).registers() },
            ),
    {
        let lower: Word = self.pop_stack_byte(bus) as Word;
        let upper: Word = self.pop_stack_byte(bus) as Word;
        lower | upper << 8
    }

    fn push_stack_byte<B: MemoryBus>(&mut self, bus: &mut B, value: Byte)
        requires
            old(bus).inv(),
        ensures
            *final(bus) == push_byte(*old(bus), old(self).sp, value),
            final(bus).inv(),
            final(self).updated(
                old(self),
                Registers { sp: old(self).sp.wrapping_sub(1), ..old(self).registers() },
            ),
    {
        bus.write_byte((self.sp as Word) + 0x100, value);
        self.sp = self.sp.wrapping_sub(1);
    }

    fn push_stack_word<B: MemoryBus>(&mut self, bus: &mut B, value: Word)
        requires
            old(bus).inv(),
        ensures
            *final(bus) == push_word(*old(bus), old(self).sp, value),
            final(bus).inv(),
            final(self).updated(
                old(self),
                Registers { sp: old(self).sp.wrapping_sub(2), ..old(self).registers() },
            ),
    {
        let lower: Byte = #[verifier::truncate] ((0xFF & value) as Byte);
        let upper: Byte = #[verifier::truncate] (((0xFF00 & value) >> 8) as Byte);

        self.push_stack_byte(bus, upper);
        self.push_stack_byte(bus, lower);
    }

    fn and_absolute_plus<B: MemoryBus>(&mut self, bus: &B, addr: Word, adder: Byte)
        requires
            bus.inv(),
        ensures
            final(self).retired(
                old(self),
                old(self).registers().load_a(bus.peek(indexed(addr, adder)) & old(self).ra),
                with_page_penalty(4, addr, indexed(addr, adder)),
            ),
    {
        let new_addr = addr.wrapping_add(adder as Word);
        let value = bus.read_byte(new_addr);
        let value = value & self.ra;

        self.load_ra(value);
        let clock: u32 = if page_crossed(addr, new_addr) {
            5
        } else {
            4
        };
        self.increment_clock(clock);
    }

    /// `BIT` on a zero page cell.
    fn bit_test_zero_page<B: MemoryBus>(&mut self, bus: &B, addr: Byte)
        requires
            bus.inv(),
        ensures
            final(self).on(*bus) == old(self).on(*bus).perform(Opcode::BitTestZero(addr)),
    {
        proof {
            lemma_zero_page_mask(addr);
        }
        let value = bus.read_from_zero_page(addr as Word);
        let result = value & self.ra;
        self.load_flags_from_artith(result);
        self.increment_clock(3);
    }

    /// `BIT` on an absolute address.
    fn bit_test_abs<B: MemoryBus>(&mut self, bus: &B, addr: Word)
        requires
            bus.inv(),
        ensures
            final(self).on(*bus) == old(self).on(*bus).perform(Opcode::BitTestAbs(addr)),
    {
        let value = bus.read_byte(addr);
        let result = value & self.ra;
        self.load_flags_from_artith(result);
        self.increment_clock(4);
    }

    /// `BCC`.
    fn branch_carry_clear(&mut self, addr: Byte)
        ensures
            final(self).retired(
                old(self),
                old(self).registers().branch(!old(self).carry, addr),
                branch_cycles(old(self).pc, !old(self).carry, addr),
            ),
    {
        let taken = !self.carry;
        self.execute_branch(addr, taken);
    }

    /// `BCS`.
    fn branch_carry_set(&mut self, addr: Byte)
        ensures
            final(self).retired(
                old(self),
                old(self).registers().branch(old(self).carry, addr),
                branch_cycles(old(self).pc, old(self).carry, addr),
            ),
    {
        let taken = self.carry;
        self.execute_branch(addr, taken);
    }

    /// `BVC`.
    fn branch_overflow_clear(&mut self, addr: Byte)
        ensures
            final(self).retired(
                old(self),
                old(self).registers().branch(!old(self).overflow, addr),
                branch_cycles(old(self).pc, !old(self).overflow, addr),
            ),
    {
        let taken = !self.overflow;
        self.execute_branch(addr, taken);
    }

    /// `BEQ`.
    fn branch_equal(&mut self, addr: Byte)
        ensures
            final(self).retired(
                old(self),
                old(self).registers().branch(old(self).zero, addr),
                branch_cycles(old(self).pc, old(self).zero, addr),
            ),
    {
        let taken = self.zero;
        self.execute_branch(addr, taken);
    }

    /// `BNE`.
    fn branch_not_equal(&mut self, addr: Byte)
        ensures
            final(self).retired(
                old(self),
                old(self).registers().branch(!old(self).zero, addr),
                branch_cycles(old(self).pc, !old(self).zero, addr),
            ),
    {
        let taken = !self.zero;
        self.execute_branch(addr, taken);
    }

    /// `BMI`.
    fn branch_minus(&mut self, addr: Byte)
        ensures
            final(self).retired(
                old(self),
                old(self).registers().branch(old(self).negative, addr),
                branch_cycles(old(self).pc, old(self).negative, addr),
            ),
    {
        let taken = self.negative;
        self.execute_branch(addr, taken);
    }

    /// `BPL`.
    fn branch_positive(&mut self, addr: Byte)
        ensures
            final(self).retired(
                old(self),
                old(self).registers().branch(!old(self).negative, addr),
                branch_cycles(old(self).pc, !old(self).negative, addr),
            ),
    {
        let taken = !self.negative;
        self.execute_branch(addr, taken);
    }

    /// `JMP` to an absolute address.
    fn jump_abs(&mut self, addr: Word)
        ensures
            final(self).retired(old(self), (Registers { pc: addr, ..old(self).registers() }), 3),
    {
        self.pc = addr;
        self.increment_clock(3);
    }

    /// `JMP` through a pointer.
    fn jump_ind<B: MemoryBus>(&mut self, bus: &B, addr: Word)
        requires
            bus.inv(),
        ensures
            final(self).on(*bus) == old(self).on(*bus).perform(Opcode::JumpInd(addr)),
    {
        let addr = bus.read_word_abs(addr);
        self.pc = addr;
        self.increment_clock(5);
    }

    /// `JSR`.
    fn jump_subroutine<B: MemoryBus>(&mut self, bus: &mut B, addr: Word)
        requires
            old(bus).inv(),
        ensures
            final(self).on(*final(bus)) == old(self).on(*old(bus)).perform(
                Opcode::JumpSubroutine(addr),
            ),
            final(bus).inv(),
    {
        self.push_stack_word(bus, self.pc.wrapping_sub(1));
        self.pc = addr;
        self.increment_clock(6);
    }

    /// `RTS`.
    fn return_subroutine<B: MemoryBus>(&mut self, bus: &B)
        requires
            bus.inv(),
        ensures
            final(self).on(*bus) == old(self).on(*bus).perform(Opcode::RetSubroutine),
    {
        let addr = self.pop_stack_word(bus);
        self.pc = addr.wrapping_add(1);
        self.increment_clock(7);
    }

    /// `ADC` with an immediate operand.
    fn add_immediate(&mut self, operand: Byte)
        ensures
            final(self).retired(old(self), old(self).registers().add_with_carry(operand), 2),
    {
        self.add_register(operand);
        self.increment_clock(2);
    }

    /// `ADC` with a zero page cell.
    fn add_carry_zero<B: MemoryBus>(&mut self, bus: &B, addr: Byte)
        requires
            bus.inv(),
        ensures
            final(self).on(*bus) == old(self).on(*bus).perform(Opcode::AddCarryZero(addr)),
    {
        proof {
            lemma_zero_page_mask(addr);
        }
        let operand = bus.read_from_zero_page(addr as Word);
        self.add_register(operand);
        self.increment_clock(3);
    }

    /// `SBC` with an immediate operand.
    fn sub_carry_imm(&mut self, value: Byte)
        ensures
            final(self).retired(old(self), old(self).registers().subtract_with_carry(value), 2),
    {
        self.sub_register(value);
        self.increment_clock(2);
    }

    /// `AND` with an immediate operand.
    fn and_immediate(&mut self, value: Byte)
        ensures
            final(self).retired(old(self), old(self).registers().load_a(value & old(self).ra), 2),
    {
        let value = value & self.ra;
        self.load_ra(value);
        self.increment_clock(2);
    }

    /// `AND` with a zero page cell.
    fn and_zero<B: MemoryBus>(&mut self, bus: &B, addr: Byte)
        requires
            bus.inv(),
        ensures
            final(self).on(*bus) == old(self).on(*bus).perform(Opcode::AndZero(addr)),
    {
        let value = bus.read_byte(addr as Word);
        let value = value & self.ra;
        self.load_ra(value);
        self.increment_clock(3);
    }

    /// `AND` with a zero page cell indexed by X.
    fn and_zero_x<B: MemoryBus>(&mut self, bus: &B, addr: Byte)
        requires
            bus.inv(),
        ensures
            final(self).on(*bus) == old(self).on(*bus).perform(Opcode::AndZeroX(addr)),
    {
        proof {
            lemma_zero_page_mask(addr.wrapping_add(self.rx));
        }
        let value = bus.read_from_zero_page(addr.wrapping_add(self.rx) as Word);
        let value = value & self.ra;
        self.load_ra(value);
        self.increment_clock(4);
    }

    /// `AND` with an absolute address.
    fn and_absolute<B: MemoryBus>(&mut self, bus: &B, addr: Word)
        requires
            bus.inv(),
        ensures
            final(self).on(*bus) == old(self).on(*bus).perform(Opcode::AndAbs(addr)),
    {
        let value = bus.read_byte(addr);
        let value = value & self.ra;
        self.load_ra(value);
        self.increment_clock(4);
    }

    /// `AND` with an absolute address indexed by X.
    fn and_absolute_x<B: MemoryBus>(&mut self, bus: &B, addr: Word)
        requires
            bus.inv(),
        ensures
            final(self).on(*bus) == old(self).on(*bus).perform(Opcode::AndAbsX(addr)),
    {
        self.and_absolute_plus(bus, addr, self.rx)
    }

    /// `AND` with an absolute address indexed by Y.
    fn and_absolute_y<B: MemoryBus>(&mut self, bus: &B, addr: Word)
        requires
            bus.inv(),
        ensures
            final(self).on(*bus) == old(self).on(*bus).perform(Opcode::AndAbsY(addr)),
    {
        self.and_absolute_plus(bus, addr, self.ry)
    }

    /// `AND` with pre-indexed indirect addressing.
    fn and_indirect_x<B: MemoryBus>(&mut self, bus: &B, addr: Byte)
        requires
            bus.inv(),
        ensures
            final(self).on(*bus) == old(self).on(*bus).perform(Opcode::AndIndX(addr)),
    {
        let init_addr = addr.wrapping_add(self.rx);
        let addr = bus.read_word_zero_page(init_addr as Word);
        let value = bus.read_byte(addr);
        let value = value & self.ra;
        self.load_ra(value);
        self.increment_clock(6);
    }

    /// `AND` with post-indexed indirect addressing.
    fn and_indirect_y<B: MemoryBus>(&mut self, bus: &B, addr: Byte)
        requires
            bus.inv(),
        ensures
            final(self).on(*bus) == old(self).on(*bus).perform(Opcode::AndIndY(addr)),
    {
        let init_addr = bus.read_word_zero_page(addr as Word);
        let addr = init_addr.wrapping_add(self.ry as Word);
        let value = bus.read_byte(addr);
        let value = value & self.ra;
        self.load_ra(value);
        let cycles_used: u32 = if page_crossed(init_addr, addr) {
            6
        } else {
            5
        };
        self.increment_clock(cycles_used)
    }

    /// `LSR` on the accumulator.
    fn logical_right_shift_acc(&mut self)
        ensures
            final(self).retired(
                old(self),
                (Registers { carry: low_bit(old(self).ra), ..old(self).registers().load_a(old(self).ra >> 1) }),
                2,
            ),
    {
        let original = self.ra;
        let value = self.ra.wrapping_shr(1);
        self.ra = value;
        self.carry = low_bit_of(original);
        self.zero = value == 0;
        self.negative = sign_of(value);
        self.increment_clock(2);
    }

    /// `LSR` on an absolute address.
    fn logical_right_shift_absolute<B: MemoryBus>(&mut self, bus: &mut B, addr: Word)
        requires
            old(bus).inv(),
        ensures
            final(self).on(*final(bus)) == old(self).on(*old(bus)).perform(
                Opcode::LogRShiftAbs(addr),
            ),
            final(bus).inv(),
    {
        let original = bus.read_byte(addr);
        let value = original.wrapping_shr(1);
        bus.write_byte(addr, value);
        self.carry = low_bit_of(original);
        self.zero = value == 0;
        self.negative = sign_of(value);
        self.increment_clock(6);
    }

    /// `ROL` on the accumulator.
    fn rotate_left_accumulator(&mut self)
        ensures
            final(self).retired(old(self), (Registers {
                carry: sign_bit(old(self).ra),
                ..old(self).registers().load_a(old(self).ra << 1 | flag_bit(old(self).carry))
            }), 2),
    {
        let original = self.ra;
        let new = original << 1 | flag_value(self.carry);
        self.ra = new;
        self.zero = new == 0;
        self.negative = sign_of(new);
        self.carry = sign_of(original);
        self.increment_clock(2);
    }

    /// `ROR` on the accumulator.
    fn rotate_right_accumulator(&mut self)
        ensures
            final(self).retired(old(self), (Registers {
                carry: low_bit(old(self).ra),
                ..old(self).registers().load_a(old(self).ra >> 1 | flag_bit(old(self).carry) << 7)
            }), 2),
    {
        let original = self.ra;
        let new = original >> 1 | flag_value(self.carry) << 7;
        self.load_ra(new);
        self.carry = low_bit_of(original);
        self.increment_clock(2);
    }

    /// `ORA` with a zero page cell.
    fn or_zero<B: MemoryBus>(&mut self, bus: &B, addr: Byte)
        requires
            bus.inv(),
        ensures
            final(self).on(*bus) == old(self).on(*bus).perform(Opcode::OrZero(addr)),
    {
        proof {
            lemma_zero_page_mask(addr);
        }
        let operand = bus.read_from_zero_page(addr as Word);
        let value = self.ra | operand;
        self.load_ra(value);
        self.increment_clock(3);
    }

    /// `LDA` with an immediate operand.
    fn load_a_immediate(&mut self, value: Byte)
        ensures
            final(self).retired(old(self), old(self).registers().load_a(value), 2),
    {
        self.load_ra(value);
        self.increment_clock(2);
    }

    /// `LDA` from a zero page cell.
    fn load_a_zero_page<B: MemoryBus>(&mut self, bus: &B, addr: Byte)
        requires
            bus.inv(),
        ensures
            final(self).on(*bus) == old(self).on(*bus).perform(Opcode::LoadAZeroPage(addr)),
    {
        let byte = bus.read_byte(addr as Word);
        self.load_ra(byte);
        self.increment_clock(3);
    }

    /// `LDA` from a zero page cell indexed by X.
    fn load_a_zero_page_x<B: MemoryBus>(&mut self, bus: &B, addr: Byte)
        requires
            bus.inv(),
        ensures
            final(self).on(*bus) == old(self).on(*bus).perform(Opcode::LoadAZeroPageX(addr)),
    {
        proof {
            lemma_zero_page_sum(addr, self.rx);
        }
        let addr_part = addr as Word;
        let addr = addr_part + self.rx as Word;
        let byte = bus.read_from_zero_page(addr);
        self.load_ra(byte);
        self.increment_clock(4);
    }

    /// `LDA` from an absolute address.
    fn load_a_absolute<B: MemoryBus>(&mut self, bus: &B, addr: Word)
        requires
            bus.inv(),
        ensures
            final(self).on(*bus) == old(self).on(*bus).perform(Opcode::LoadAAbsolute(addr)),
    {
        let byte = bus.read_byte(addr);
        self.load_ra(byte);
        self.increment_clock(4);
    }

    /// `LDA` from an absolute address indexed by X.
    fn load_a_absolute_x<B: MemoryBus>(&mut self, bus: &B, addr: Word)
        requires
            bus.inv(),
        ensures
            final(self).on(*bus) == old(self).on(*bus).perform(Opcode::LoadAAbsoluteX(addr)),
    {
        let new_addr = addr.wrapping_add(self.rx as Word);
        let byte = bus.read_byte(new_addr);
        self.load_ra(byte);
        let cycles_used: u32 = if page_crossed(addr, new_addr) {
            5
        } else {
            4
        };
        self.increment_clock(cycles_used);
    }

    /// `LDA` from an absolute address indexed by Y.
    fn load_a_absolute_y<B: MemoryBus>(&mut self, bus: &B, addr: Word)
        requires
            bus.inv(),
        ensures
            final(self).on(*bus) == old(self).on(*bus).perform(Opcode::LoadAAbsoluteY(addr)),
    {
        let new_addr = addr.wrapping_add(self.ry as Word);
        let byte = bus.read_byte(new_addr);
        self.load_ra(byte);
        let cycles_used: u32 = if page_crossed(addr, new_addr) {
            5
        } else {
            4
        };
        self.increment_clock(cycles_used);
    }

    /// `LDA` with post-indexed indirect addressing.
    fn load_a_indirect_y<B: MemoryBus>(&mut self, bus: &B, addr: Byte)
        requires
            bus.inv(),
        ensures
            final(self).on(*bus) == old(self).on(*bus).perform(Opcode::LoadAIndY(addr)),
    {
        let pointer = bus.read_word_zero_page(addr as Word);
        let new_addr = pointer.wrapping_add(self.ry as Word);
        let byte = bus.read_byte(new_addr);
        self.load_ra(byte);
        let cycles_used: u32 = if page_crossed(pointer, new_addr) {
            6
        } else {
            5
        };
        self.increment_clock(cycles_used);
    }

    /// `LDX` with an immediate operand.
    fn load_x_immediate(&mut self, value: Byte)
        ensures
            final(self).retired(old(self), old(self).registers().load_x(value), 2),
    {
        self.load_rx(value);
        self.increment_clock(2);
    }

    /// `LDX` from a zero page cell.
    fn load_x_zero_page<B: MemoryBus>(&mut self, bus: &B, addr: Byte)
        requires
            bus.inv(),
        ensures
            final(self).on(*bus) == old(self).on(*bus).perform(Opcode::LoadXZero(addr)),
    {
        proof {
            lemma_zero_page_mask(addr);
        }
        let value = bus.read_from_zero_page(addr as Word);
        self.load_rx(value);
        self.increment_clock(3);
    }

    /// `LDY` with an immediate operand.
    fn load_y_immediate(&mut self, value: Byte)
        ensures
            final(self).retired(old(self), old(self).registers().load_y(value), 2),
    {
        self.load_ry(value);
        self.increment_clock(2);
    }

    /// `LDY` from a zero page cell.
    fn load_y_zero<B: MemoryBus>(&mut self, bus: &B, addr: Byte)
        requires
            bus.inv(),
        ensures
            final(self).on(*bus) == old(self).on(*bus).perform(Opcode::LoadYZero(addr)),
    {
        proof {
            lemma_zero_page_mask(addr);
        }
        let value = bus.read_from_zero_page(addr as Word);
        self.load_ry(value);
        self.increment_clock(3);
    }

    /// `LDY` from a zero page cell indexed by X.
    fn load_y_zero_x<B: MemoryBus>(&mut self, bus: &B, addr: Byte)
        requires
            bus.inv(),
        ensures
            final(self).on(*bus) == old(self).on(*bus).perform(Opcode::LoadYZeroX(addr)),
    {
        proof {
            lemma_zero_page_mask(addr.wrapping_add(self.rx));
        }
        let value = bus.read_from_zero_page(addr.wrapping_add(self.rx) as Word);
        self.load_ry(value);
        self.increment_clock(4);
    }

    /// `LDY` from an absolute address indexed by X.
    fn load_y_absolute_x<B: MemoryBus>(&mut self, bus: &B, addr: Word)
        requires
            bus.inv(),
        ensures
            final(self).on(*bus) == old(self).on(*bus).perform(Opcode::LoadYAbsoluteX(addr)),
    {
        let new_addr = addr.wrapping_add(self.rx as Word);
        let value = bus.read_byte(new_addr);
        self.load_ry(value);
        let clocks: u32 = if page_crossed(addr, new_addr) {
            5
        } else {
            4
        };
        self.increment_clock(clocks)
    }

    /// `STA` to a zero page cell.
    fn store_a_zero_page<B: MemoryBus>(&mut self, bus: &mut B, addr: Byte)
        requires
            old(bus).inv(),
        ensures
            final(self).on(*final(bus)) == old(self).on(*old(bus)).perform(
                Opcode::StoreAZeroPage(addr),
            ),
            final(bus).inv(),
    {
        bus.write_byte(addr as Word, self.ra);
        self.increment_clock(3);
    }

    /// `STA` to a zero page cell indexed by X.
    fn store_a_zero_page_x<B: MemoryBus>(&mut self, bus: &mut B, addr: Byte)
        requires
            old(bus).inv(),
        ensures
            final(self).on(*final(bus)) == old(self).on(*old(bus)).perform(
                Opcode::StoreAZeroPageX(addr),
            ),
            final(bus).inv(),
    {
        proof {
            lemma_zero_page_mask(addr.wrapping_add(self.rx));
        }
        bus.write_to_zero_page(addr.wrapping_add(self.rx) as Word, self.ra);
        self.increment_clock(4);
    }

    /// `STA` to an absolute address.
    fn store_a_absolute<B: MemoryBus>(&mut self, bus: &mut B, addr: Word)
        requires
            old(bus).inv(),
        ensures
            final(self).on(*final(bus)) == old(self).on(*old(bus)).perform(
                Opcode::StoreAAbsolute(addr),
            ),
            final(bus).inv(),
    {
        bus.write_byte(addr, self.ra);
        self.increment_clock(4);
    }

    /// `STA` to an absolute address indexed by X.
    fn store_a_absolute_x<B: MemoryBus>(&mut self, bus: &mut B, addr: Word)
        requires
            old(bus).inv(),
        ensures
            final(self).on(*final(bus)) == old(self).on(*old(bus)).perform(
                Opcode::StoreAAbsoluteX(addr),
            ),
            final(bus).inv(),
    {
        bus.write_byte(addr.wrapping_add(self.rx as Word), self.ra);
        self.increment_clock(5);
    }

    /// `STA` to an absolute address indexed by Y.
    fn store_a_absolute_y<B: MemoryBus>(&mut self, bus: &mut B, addr: Word)
        requires
            old(bus).inv(),
        ensures
            final(self).on(*final(bus)) == old(self).on(*old(bus)).perform(
                Opcode::StoreAAbsoluteY(addr),
            ),
            final(bus).inv(),
    {
        bus.write_byte(addr.wrapping_add(self.ry as Word), self.ra);
        self.increment_clock(5);
    }

    /// `STA` with pre-indexed indirect addressing.
    fn store_a_indirect_x<B: MemoryBus>(&mut self, bus: &mut B, addr: Byte)
        requires
            old(bus).inv(),
        ensures
            final(self).on(*final(bus)) == old(self).on(*old(bus)).perform(
                Opcode::StoreAIndirectX(addr),
            ),
            final(bus).inv(),
    {
        let addr = bus.read_word_zero_page(addr.wrapping_add(self.rx) as Word);
        bus.write_byte(addr, self.ra);
        self.increment_clock(6);
    }

    /// `STA` with post-indexed indirect addressing.
    fn store_a_indirect_y<B: MemoryBus>(&mut self, bus: &mut B, addr: Byte)
        requires
            old(bus).inv(),
        ensures
            final(self).on(*final(bus)) == old(self).on(*old(bus)).perform(
                Opcode::StoreAIndirectY(addr),
            ),
            final(bus).inv(),
    {
        let addr = bus.read_word_zero_page(addr as Word).wrapping_add(self.ry as Word);
        bus.write_byte(addr, self.ra);
        self.increment_clock(6);
    }

    /// `STX` to a zero page cell.
    fn store_x_zero_page<B: MemoryBus>(&mut self, bus: &mut B, addr: Byte)
        requires
            old(bus).inv(),
        ensures
            final(self).on(*final(bus)) == old(self).on(*old(bus)).perform(
                Opcode::StoreXZeroPage(addr),
            ),
            final(bus).inv(),
    {
        bus.write_byte(addr as Word, self.rx);
        self.increment_clock(3);
    }

    /// `STX` to a zero page cell indexed by Y.
    fn store_x_zero_page_y<B: MemoryBus>(&mut self, bus: &mut B, addr: Byte)
        requires
            old(bus).inv(),
        ensures
            final(self).on(*final(bus)) == old(self).on(*old(bus)).perform(
                Opcode::StoreXZeroPageY(addr),
            ),
            final(bus).inv(),
    {
        let addr = addr.wrapping_add(self.ry);
        bus.write_byte(addr as Word, self.rx);
        self.increment_clock(4);
    }

    /// `STX` to an absolute address.
    fn store_x_absolute<B: MemoryBus>(&mut self, bus: &mut B, addr: Word)
        requires
            old(bus).inv(),
        ensures
            final(self).on(*final(bus)) == old(self).on(*old(bus)).perform(
                Opcode::StoreXAbsolute(addr),
            ),
            final(bus).inv(),
    {
        bus.write_byte(addr, self.rx);
        self.increment_clock(4);
    }

    /// `STY` to a zero page cell.
    fn store_y_zero_page<B: MemoryBus>(&mut self, bus: &mut B, addr: Byte)
        requires
            old(bus).inv(),
        ensures
            final(self).on(*final(bus)) == old(self).on(*old(bus)).perform(
                Opcode::StoreYZeroPage(addr),
            ),
            final(bus).inv(),
    {
        bus.write_byte(addr as Word, self.ry);
        self.increment_clock(3);
    }

    /// `STY` to a zero page cell indexed by X.
    fn store_y_zero_page_x<B: MemoryBus>(&mut self, bus: &mut B, addr: Byte)
        requires
            old(bus).inv(),
        ensures
            final(self).on(*final(bus)) == old(self).on(*old(bus)).perform(
                Opcode::StoreYZeroPageX(addr),
            ),
            final(bus).inv(),
    {
        let addr = addr.wrapping_add(self.rx);
        bus.write_byte(addr as Word, self.ry);
        self.increment_clock(4);
    }

    /// `STY` to an absolute address.
    fn store_y_absolute<B: MemoryBus>(&mut self, bus: &mut B, addr: Word)
        requires
            old(bus).inv(),
        ensures
            final(self).on(*final(bus)) == old(self).on(*old(bus)).perform(
                Opcode::StoreYAbsolute(addr),
            ),
            final(bus).inv(),
    {
        bus.write_byte(addr, self.ry);
        self.increment_clock(4);
    }

    /// `TAY`.
    fn move_a_y(&mut self)
        ensures
            final(self).retired(old(self), old(self).registers().load_y(old(self).ra), 2),
    {
        let byte = self.ra;
        self.load_ry(byte);
        self.increment_clock(2);
    }

    /// `TAX`.
    fn move_a_x(&mut self)
        ensures
            final(self).retired(old(self), old(self).registers().load_x(old(self).ra), 2),
    {
        let byte = self.ra;
        self.load_rx(byte);
        self.increment_clock(2);
    }

    /// `TSX`.
    fn move_s_x(&mut self)
        ensures
            final(self).retired(old(self), old(self).registers().load_x(old(self).sp), 2),
    {
        let byte = self.sp;
        self.load_rx(byte);
        self.increment_clock(2);
    }

    /// `TYA`.
    fn move_y_a(&mut self)
        ensures
            final(self).retired(old(self), old(self).registers().load_a(old(self).ry), 2),
    {
        let byte = self.ry;
        self.load_ra(byte);
        self.increment_clock(2);
    }

    /// `TXA`.
    fn move_x_a(&mut self)
        ensures
            final(self).retired(old(self), old(self).registers().load_a(old(self).rx), 2),
    {
        let byte = self.rx;
        self.load_ra(byte);
        self.increment_clock(2);
    }

    /// `TXS`; the flags stay as they are.
    fn move_x_s(&mut self)
        ensures
            final(self).retired(
                old(self),
                (Registers { sp: old(self).rx, ..old(self).registers() }),
                2,
            ),
    {
        self.sp = self.rx;
        self.increment_clock(2);
    }

    /// `INX`.
    fn inc_x(&mut self)
        ensures
            final(self).retired(
                old(self),
                old(self).registers().load_x(old(self).rx.wrapping_add(1)),
                2,
            ),
    {
        let value = self.rx.wrapping_add(1);
        self.load_rx(value);
        self.increment_clock(2);
    }

    /// `DEX`.
    fn dec_x(&mut self)
        ensures
            final(self).retired(
                old(self),
                old(self).registers().load_x(old(self).rx.wrapping_sub(1)),
                2,
            ),
    {
        let value = self.rx.wrapping_sub(1);
        self.load_rx(value);
        self.increment_clock(2);
    }

    /// `INY`.
    fn inc_y(&mut self)
        ensures
            final(self).retired(
                old(self),
                old(self).registers().load_y(old(self).ry.wrapping_add(1)),
                2,
            ),
    {
        let value = self.ry.wrapping_add(1);
        self.load_ry(value);
        self.increment_clock(2);
    }

    /// `DEY`.
    fn dec_y(&mut self)
        ensures
            final(self).retired(
                old(self),
                old(self).registers().load_y(old(self).ry.wrapping_sub(1)),
                2,
            ),
    {
        let value = self.ry.wrapping_sub(1);
        self.load_ry(value);
        self.increment_clock(2);
    }

    /// `INC` on a zero page cell.
    fn inc_memory_zero<B: MemoryBus>(&mut self, bus: &mut B, addr: Byte)
        requires
            old(bus).inv(),
        ensures
            final(self).on(*final(bus)) == old(self).on(*old(bus)).perform(
                Opcode::IncMemZero(addr),
            ),
            final(bus).inv(),
    {
        proof {
            lemma_zero_page_mask(addr);
        }
        let value = bus.read_from_zero_page(addr as Word).wrapping_add(1);
        bus.write_byte(addr as Word, value);
        self.zero = value == 0;
        self.negative = sign_of(value);
        self.increment_clock(5);
    }

    /// `DEC` on a zero page cell.
    fn dec_memory_zero<B: MemoryBus>(&mut self, bus: &mut B, addr: Byte)
        requires
            old(bus).inv(),
        ensures
            final(self).on(*final(bus)) == old(self).on(*old(bus)).perform(
                Opcode::DecMemZero(addr),
            ),
            final(bus).inv(),
    {
        proof {
            lemma_zero_page_mask(addr);
        }
        let value = bus.read_from_zero_page(addr as Word).wrapping_sub(1);
        bus.write_byte(addr as Word, value);
        self.zero = value == 0;
        self.negative = sign_of(value);
        self.increment_clock(5);
    }

    /// `ASL` on the accumulator.
    fn shift_left_acc(&mut self)
        ensures
            final(self).retired(
                old(self),
                (Registers { carry: sign_bit(old(self).ra), ..old(self).registers().load_a(old(self).ra << 1) }),
                2,
            ),
    {
        let orig_ra = self.ra;
        let acc = self.ra.wrapping_shl(1);
        self.load_ra(acc);
        self.carry = sign_of(orig_ra);
        self.increment_clock(2);
    }

    /// `ASL` on a zero page cell.
    fn shift_left_zero<B: MemoryBus>(&mut self, bus: &mut B, addr: Byte)
        requires
            old(bus).inv(),
        ensures
            final(self).on(*final(bus)) == old(self).on(*old(bus)).perform(
                Opcode::LShiftZero(addr),
            ),
            final(bus).inv(),
    {
        proof {
            lemma_zero_page_mask(addr);
        }
        let original = bus.read_from_zero_page(addr as Word);
        let value = original.wrapping_shl(1);
        bus.write_to_zero_page(addr as Word, value);
        self.carry = sign_of(original);
        self.zero = value == 0;
        self.negative = sign_of(value);
        self.increment_clock(5);
    }

    /// `CMP` with an immediate operand.
    fn compare_immediate(&mut self, value: Byte)
        ensures
            final(self).retired(old(self), old(self).registers().compare(old(self).ra, value), 2),
    {
        self.zero = value == self.ra;
        self.carry = self.ra >= value;
        self.negative = sign_of(self.ra.wrapping_sub(value));
        self.increment_clock(2);
    }

    /// `CPX` with an immediate operand.
    fn compare_x_immediate(&mut self, value: Byte)
        ensures
            final(self).retired(old(self), old(self).registers().compare(old(self).rx, value), 2),
    {
        self.zero = self.rx == value;
        self.carry = self.rx >= value;
        self.negative = sign_of(self.rx.wrapping_sub(value));
        self.increment_clock(2);
    }

    /// `CPX` with a zero page cell.
    fn compare_x_zero<B: MemoryBus>(&mut self, bus: &B, addr: Byte)
        requires
            bus.inv(),
        ensures
            final(self).on(*bus) == old(self).on(*bus).perform(Opcode::CompareXZero(addr)),
    {
        proof {
            lemma_zero_page_mask(addr);
        }
        let value = bus.read_from_zero_page(addr as Word);
        self.zero = self.rx == value;
        self.carry = self.rx >= value;
        self.negative = sign_of(self.rx.wrapping_sub(value));
        self.increment_clock(3);
    }

    /// `CPY` with an immediate operand.
    fn compare_y_imm(&mut self, value: Byte)
        ensures
            final(self).retired(old(self), old(self).registers().compare(old(self).ry, value), 2),
    {
        self.carry = self.ry >= value;
        self.zero = self.ry == value;
        self.negative = sign_of(self.ry.wrapping_sub(value));
        self.increment_clock(2);
    }

    /// `EOR` with an immediate operand.
    fn xor_immediate(&mut self, operand: Byte)
        ensures
            final(self).retired(old(self), old(self).registers().load_a(old(self).ra ^ operand), 2),
    {
        let value = self.ra ^ operand;
        self.load_ra(value);
        self.increment_clock(2);
    }

    /// `EOR` with a zero page cell.
    fn xor_zero<B: MemoryBus>(&mut self, bus: &B, addr: Byte)
        requires
            bus.inv(),
        ensures
            final(self).on(*bus) == old(self).on(*bus).perform(Opcode::XorZero(addr)),
    {
        proof {
            lemma_zero_page_mask(addr);
        }
        let operand = bus.read_from_zero_page(addr as Word);
        let value = self.ra ^ operand;
        self.load_ra(value);
        self.increment_clock(3);
    }

    /// `NOP`.
    fn noop(&mut self)
        ensures
            final(self).retired(old(self), old(self).registers(), 2),
    {
        self.increment_clock(2);
    }

    /// Executes an instruction whose bytes have been fetched: registers and
    /// memory change as the instruction says, and its cycle cost is posted
    /// once, when it is complete, to the tick consumers and then to the
    /// bus.
    pub fn execute<B: MemoryBus>(&mut self, inst: Opcode, bus: &mut B)
        requires
            old(bus).inv(),
        ensures
            final(self).on(*final(bus)) == old(self).on(*old(bus)).execute(inst),
            final(bus).inv(),
    {
        proof {
            lemma_cycle_cost_bounds(self.registers(), *bus, inst);
        }
        let before = self.clock_cycles;
        self.perform(inst, bus);
        let posted: u128 = self.clock_cycles.wrapping_sub(before);
        proof {
            bus.lemma_after_clock_inv(posted as u32);
        }
        bus.handle_clock(posted as u32);
    }

    /// The processor's own part of an instruction: registers and memory
    /// change as the instruction says, and its cycle cost is handed to the
    /// processor's tick consumers.
    #[verifier::rlimit(60)]
    #[verifier::spinoff_prover]
    fn perform<B: MemoryBus>(&mut self, inst: Opcode, bus: &mut B)
        requires
            old(bus).inv(),
        ensures
            final(self).on(*final(bus)) == old(self).on(*old(bus)).perform(inst),
            final(bus).inv(),
    {
        match inst {
            Opcode::LoadAImmediate(val) => self.load_a_immediate(val),
            Opcode::LoadAZeroPage(val) => self.load_a_zero_page(bus, val),
            Opcode::LoadAZeroPageX(val) => self.load_a_zero_page_x(bus, val),
            Opcode::LoadAAbsolute(val) => self.load_a_absolute(bus, val),
            Opcode::LoadAAbsoluteX(val) => self.load_a_absolute_x(bus, val),
            Opcode::LoadAAbsoluteY(val) => self.load_a_absolute_y(bus, val),
            Opcode::LoadAIndY(val) => self.load_a_indirect_y(bus, val),
            Opcode::LoadXImmediate(val) => self.load_x_immediate(val),
            Opcode::LoadXZero(val) => self.load_x_zero_page(bus, val),
            Opcode::LoadYImmediate(val) => self.load_y_immediate(val),
            Opcode::LoadYZero(val) => self.load_y_zero(bus, val),
            Opcode::LoadYZeroX(val) => self.load_y_zero_x(bus, val),
            Opcode::LoadYAbsoluteX(val) => self.load_y_absolute_x(bus, val),
            Opcode::StoreAZeroPage(val) => self.store_a_zero_page(bus, val),
            Opcode::StoreAZeroPageX(val) => self.store_a_zero_page_x(bus, val),
            Opcode::StoreAAbsolute(val) => self.store_a_absolute(bus, val),
            Opcode::StoreAAbsoluteX(val) => self.store_a_absolute_x(bus, val),
            Opcode::StoreAAbsoluteY(val) => self.store_a_absolute_y(bus, val),
            Opcode::StoreAIndirectX(val) => self.store_a_indirect_x(bus, val),
            Opcode::StoreAIndirectY(val) => self.store_a_indirect_y(bus, val),
            Opcode::StoreXZeroPage(val) => self.store_x_zero_page(bus, val),
            Opcode::StoreXZeroPageY(val) => self.store_x_zero_page_y(bus, val),
            Opcode::StoreXAbsolute(val) => self.store_x_absolute(bus, val),
            Opcode::StoreYZeroPage(val) => self.store_y_zero_page(bus, val),
            Opcode::StoreYZeroPageX(val) => self.store_y_zero_page_x(bus, val),
            Opcode::StoreYAbsolute(val) => self.store_y_absolute(bus, val),
            Opcode::MoveAY => self.move_a_y(),
            Opcode::MoveAX => self.move_a_x(),
            Opcode::MoveSX => self.move_s_x(),
            Opcode::MoveYA => self.move_y_a(),
            Opcode::MoveXA => self.move_x_a(),
            Opcode::MoveXS => self.move_x_s(),
            Opcode::AddImmediate(val) => self.add_immediate(val),
            Opcode::AddCarryZero(val) => self.add_carry_zero(bus, val),
            Opcode::SubCarryImmediate(val) => self.sub_carry_imm(val),
            Opcode::AndImm(val) => self.and_immediate(val),
            Opcode::AndZero(val) => self.and_zero(bus, val),
            Opcode::AndZeroX(val) => self.and_zero_x(bus, val),
            Opcode::AndAbs(val) => self.and_absolute(bus, val),
            Opcode::AndAbsX(val) => self.and_absolute_x(bus, val),
            Opcode::AndAbsY(val) => self.and_absolute_y(bus, val),
            Opcode::AndIndX(val) => self.and_indirect_x(bus, val),
            Opcode::AndIndY(val) => self.and_indirect_y(bus, val),
            Opcode::OrZero(val) => self.or_zero(bus, val),
            Opcode::XorImm(val) => self.xor_immediate(val),
            Opcode::XorZero(val) => self.xor_zero(bus, val),
            Opcode::LShiftAcc => self.shift_left_acc(),
            Opcode::LShiftZero(val) => self.shift_left_zero(bus, val),
            Opcode::LogRShiftAcc => self.logical_right_shift_acc(),
            Opcode::LogRShiftAbs(val) => self.logical_right_shift_absolute(bus, val),
            Opcode::RotateLAcc => self.rotate_left_accumulator(),
            Opcode::RotateRAcc => self.rotate_right_accumulator(),
            Opcode::CompareImm(val) => self.compare_immediate(val),
            Opcode::CompareXImm(val) => self.compare_x_immediate(val),
            Opcode::CompareXZero(val) => self.compare_x_zero(bus, val),
            Opcode::CompareYImm(val) => self.compare_y_imm(val),
            Opcode::BitTestZero(val) => self.bit_test_zero_page(bus, val),
            Opcode::BitTestAbs(val) => self.bit_test_abs(bus, val),
            Opcode::IncX => self.inc_x(),
            Opcode::DecX => self.dec_x(),
            Opcode::IncY => self.inc_y(),
            Opcode::DecY => self.dec_y(),
            Opcode::IncMemZero(val) => self.inc_memory_zero(bus, val),
            Opcode::DecMemZero(val) => self.dec_memory_zero(bus, val),
            Opcode::JumpAbs(val) => self.jump_abs(val),
            Opcode::JumpInd(val) => self.jump_ind(bus, val),
            Opcode::JumpSubroutine(val) => self.jump_subroutine(bus, val),
            Opcode::RetSubroutine => self.return_subroutine(bus),
            Opcode::BranchCarryClear(val) => self.branch_carry_clear(val),
            Opcode::BranchCarrySet(val) => self.branch_carry_set(val),
            Opcode::BranchEqual(val) => self.branch_equal(val),
            Opcode::BranchNotEqual(val) => self.branch_not_equal(val),
            Opcode::BranchMinus(val) => self.branch_minus(val),
            Opcode::BranchPositive(val) => self.branch_positive(val),
            Opcode::BranchOverflowClear(val) => self.branch_overflow_clear(val),
            Opcode::PushAcc => {
                self.push_stack_byte(bus, self.ra);
                self.increment_clock(3);
            },
            Opcode::PullAcc => {
                let value = self.pop_stack_byte(bus);
                self.load_ra(value);
                self.increment_clock(4);
            },
            Opcode::SetCarry => {
                self.carry = true;
                self.increment_clock(2);
            },
            Opcode::ClearCarry => {
                self.carry = false;
                self.increment_clock(2);
            },
            Opcode::InterruptDisable => {
                self.interrupt_disable = true;
                self.increment_clock(2);
            },
            Opcode::SetDecimalMode => {
                self.decimal_mode = true;
                self.increment_clock(2);
            },
            Opcode::ClearDecimalMode => {
                self.decimal_mode = false;
                self.increment_clock(2);
            },
            Opcode::NoOp => self.noop(),
            Opcode::Break => {
                self.break_command = true;
                self.push_stack_word(bus, self.pc.wrapping_sub(1));
                self.push_stack_byte(bus, self.register_values());

                self.pc = bus.read_word_abs(0xfffe);
                self.increment_clock(7);
            },
        }
    }

    /// Fetches, decodes and executes one instruction. A byte that encodes
    /// no instruction is an error, and leaves the program counter behind
    /// that byte and everything else as it was.
    pub fn run_cycle<B: MemoryBus>(&mut self, bus: &mut B) -> (done: Result<(), EmulatorError>)
        requires
            old(bus).inv(),
        ensures
            match old(self).on(*old(bus)).cycle() {
                Ok(next) => done is Ok && final(self).on(*final(bus)) == next,
                Err((error, halted)) => done == Err::<(), EmulatorError>(error) && final(self).on(
                    *final(bus),
                ) == halted,
            },
            final(bus).inv(),
    {
        let inst = Opcode::decode_opcode(self, bus)?;
        self.execute(inst, bus);
        Ok(())
    }

    /// Loads the program counter from the reset vector and runs until a
    /// byte is fetched that encodes no instruction, which is the error
    /// returned, or until `max_instructions` instructions are complete.
    pub fn start<B: MemoryBus>(&mut self, bus: &mut B, max_instructions: u64) -> (done: Result<
        (),
        EmulatorError,
    >)
        requires
            old(bus).inv(),
        ensures
            final(self).on(*final(bus)) == old(self).on(*old(bus)).reset().run(
                max_instructions as nat,
            ).1,
            match old(self).on(*old(bus)).reset().run(max_instructions as nat).0 {
                Some(error) => done == Err::<(), EmulatorError>(error),
                None => done is Ok,
            },
            final(bus).inv(),
    {
        self.pc = 0xfffc;
        self.pc = self.fetch_word(bus);
        let ghost begun = self.on(*bus);

        let mut completed: u64 = 0;
        while completed < max_instructions
            invariant
                completed <= max_instructions,
                bus.inv(),
                begun == old(self).on(*old(bus)).reset(),
                begun.run(max_instructions as nat) == self.on(*bus).run(
                    (max_instructions - completed) as nat,
                ),
            decreases max_instructions - completed,
        {
            let ghost now = self.on(*bus);
            assert(now.run((max_instructions - completed) as nat) == match now.cycle() {
                Ok(next) => next.run((max_instructions - completed - 1) as nat),
                Err((error, halted)) => (Some(error), halted),
            });
            match self.run_cycle(bus) {
                Ok(()) => {},
                Err(error) => {
                    return Err(error);
                },
            }
            completed += 1;
        }
        Ok(())
    }

    /// Reads the byte at the program counter and moves the program counter
    /// to the next address.
    pub fn fetch_byte<B: MemoryBus>(&mut self, memory: &B) -> (byte: Byte)
        requires
            memory.inv(),
        ensures
            byte == memory.peek(old(self).pc),
            final(self).on(*memory) == old(self).on(*memory).at(old(self).pc.wrapping_add(1)),
    {
        let byte = memory.read_byte(self.pc);
        self.pc = self.pc.wrapping_add(1);
        byte
    }

    /// Reads the little-endian word at the program counter and moves the
    /// program counter past it.
    pub fn fetch_word<B: MemoryBus>(&mut self, memory: &B) -> (word: Word)
        requires
            memory.inv(),
        ensures
            word == word_of(
                memory.peek(old(self).pc),
                memory.peek(old(self).pc.wrapping_add(1)),
            ),
            final(self).on(*memory) == old(self).on(*memory).at(old(self).pc.wrapping_add(2)),
    {
        let lower_byte: Word = self.fetch_byte(memory) as Word;
        let upper_byte: Word = self.fetch_byte(memory) as Word;
        lower_byte | upper_byte << 8
    }
}

} // verus!
