//! What every instruction means: the registers, memory and cycle count that
//! it leaves behind, as functions of the registers and memory it starts from.

use vstd::prelude::*;
use crate::bit_utils::{bit_set_byte, pages_differ};
use crate::cpu::code::{decode, Opcode};
use crate::cpu::ClockHandler;
use crate::data_types::{Byte, Word};
use crate::error::EmulatorError;
use crate::memory_bus::{next_in_page, word_of, MemoryBus};

verus! {

/// The registers that a program can see.
#[derive(Clone, Copy, Debug, PartialEq, Eq, Structural)]
pub struct Registers {
    /// Address of the next byte to fetch.
    pub pc: Word,
    /// Low byte of the stack pointer.
    pub sp: Byte,
    /// The accumulator.
    pub ra: Byte,
    /// The X index register.
    pub rx: Byte,
    /// The Y index register.
    pub ry: Byte,
    pub carry: bool,
    pub zero: bool,
    pub interrupt_disable: bool,
    pub decimal_mode: bool,
    pub break_command: bool,
    pub overflow: bool,
    pub negative: bool,
}

/// Bit 7 of a byte: its sign when read as a two's-complement number.
pub open spec fn sign_bit(value: Byte) -> bool {
    bit_set_byte(value, 7)
}

/// Bit 0 of a byte.
pub open spec fn low_bit(value: Byte) -> bool {
    bit_set_byte(value, 0)
}

/// A flag as a bit.
pub open spec fn flag_bit(flag: bool) -> Byte {
    if flag {
        1
    } else {
        0
    }
}

/// An addition or subtraction overflowed as a signed operation: both inputs
/// have the same sign and the result has the other one.
pub open spec fn signed_overflow(a: Byte, b: Byte, out: Byte) -> bool {
    sign_bit(a) == sign_bit(b) && sign_bit(out) != sign_bit(a)
}

/// A byte read as a two's-complement number.
pub open spec fn sign_extend(value: Byte) -> int {
    if value < 0x80 {
        value as int
    } else {
        value - 0x100
    }
}

/// Where a taken branch goes: the displacement is a signed byte, added to
/// the program counter with 16-bit wraparound.
pub open spec fn branch_target(pc: Word, displacement: Byte) -> Word {
    ((pc + sign_extend(displacement)) % 0x1_0000) as Word
}

/// The address of the stack cell that the stack pointer names.
pub open spec fn stack_address(sp: Byte) -> Word {
    (sp + 0x100) as Word
}

/// Zero page indexed: the sum of operand and index, modulo 256.
pub open spec fn zero_page_indexed(operand: Byte, index: Byte) -> Word {
    operand.wrapping_add(index) as Word
}

/// Absolute indexed: the sum of base and index, modulo 65536.
pub open spec fn indexed(base: Word, index: Byte) -> Word {
    base.wrapping_add(index as Word)
}

/// The word at a zero-page address; its high byte comes from the next
/// zero-page cell, 0xFF being followed by 0x00.
pub open spec fn word_zero_page<B: MemoryBus>(bus: B, addr: Word) -> Word {
    word_of(bus.peek(addr & 0x00FF), bus.peek(addr.wrapping_add(1) & 0x00FF))
}

/// The word at an address; its high byte comes from the next address within
/// the same page.
pub open spec fn word_abs<B: MemoryBus>(bus: B, addr: Word) -> Word {
    word_of(bus.peek(addr), bus.peek(next_in_page(addr)))
}

/// Pre-indexed indirect: the word in the zero page at operand plus X.
pub open spec fn indirect_x<B: MemoryBus>(bus: B, operand: Byte, x: Byte) -> Word {
    word_zero_page(bus, zero_page_indexed(operand, x))
}

/// The pointer of post-indexed indirect: the word in the zero page at the
/// operand.
pub open spec fn pointer_at<B: MemoryBus>(bus: B, operand: Byte) -> Word {
    word_zero_page(bus, operand as Word)
}

/// The cycles of an indexed read: one more than `cycles` when the effective
/// address lies in another page than the base.
pub open spec fn with_page_penalty(cycles: u32, base: Word, effective: Word) -> u32 {
    if pages_differ(base, effective) {
        (cycles + 1) as u32
    } else {
        cycles
    }
}

/// The memory after a byte has been pushed with the stack pointer at `sp`.
pub open spec fn push_byte<B: MemoryBus>(bus: B, sp: Byte, value: Byte) -> B {
    bus.poke(stack_address(sp), value)
}

/// The memory after a word has been pushed with the stack pointer at `sp`:
/// the high byte first, the low byte below it.
pub open spec fn push_word<B: MemoryBus>(bus: B, sp: Byte, word: Word) -> B {
    push_byte(
        push_byte(bus, sp, ((0xFF00 & word) >> 8) as Byte),
        sp.wrapping_sub(1),
        (0xFF & word) as Byte,
    )
}

/// The byte that a pull yields with the stack pointer at `sp`.
pub open spec fn pull_byte<B: MemoryBus>(bus: B, sp: Byte) -> Byte {
    bus.peek(stack_address(sp.wrapping_add(1)))
}

/// The word that pulling two bytes yields with the stack pointer at `sp`:
/// the low byte first, the high byte above it.
pub open spec fn pull_word<B: MemoryBus>(bus: B, sp: Byte) -> Word {
    word_of(pull_byte(bus, sp), pull_byte(bus, sp.wrapping_add(1)))
}

impl Registers {
    /// The packed flag byte: C, Z, I, D, B in bits 0 to 4, V in bit 6, N in
    /// bit 7, and bit 5 always one.
    pub open spec fn status(self) -> Byte {
        flag_bit(self.carry) | flag_bit(self.zero) << 1 | flag_bit(self.interrupt_disable) << 2
            | flag_bit(self.decimal_mode) << 3 | flag_bit(self.break_command) << 4 | 1u8 << 5
            | flag_bit(self.overflow) << 6 | flag_bit(self.negative) << 7
    }

    /// The registers with the flags taken from a packed flag byte; bit 5 of
    /// the byte is ignored.
    pub open spec fn with_status(self, flags: Byte) -> Self {
        Registers {
            carry: bit_set_byte(flags, 0),
            zero: bit_set_byte(flags, 1),
            interrupt_disable: bit_set_byte(flags, 2),
            decimal_mode: bit_set_byte(flags, 3),
            break_command: bit_set_byte(flags, 4),
            overflow: bit_set_byte(flags, 6),
            negative: bit_set_byte(flags, 7),
            ..self
        }
    }

    /// Z and N taken from a value: Z says that it is zero, N is its bit 7.
    pub open spec fn with_zn(self, value: Byte) -> Self {
        Registers { zero: value == 0, negative: sign_bit(value), ..self }
    }

    /// The accumulator loaded with a value, Z and N following it.
    pub open spec fn load_a(self, value: Byte) -> Self {
        Registers { ra: value, ..self.with_zn(value) }
    }

    /// X loaded with a value, Z and N following it.
    pub open spec fn load_x(self, value: Byte) -> Self {
        Registers { rx: value, ..self.with_zn(value) }
    }

    /// Y loaded with a value, Z and N following it.
    pub open spec fn load_y(self, value: Byte) -> Self {
        Registers { ry: value, ..self.with_zn(value) }
    }

    /// A register compared with an operand: Z says that they are equal, C
    /// that the register is not below the operand, N is bit 7 of their
    /// difference.
    pub open spec fn compare(self, register: Byte, operand: Byte) -> Self {
        Registers {
            zero: register == operand,
            carry: register >= operand,
            negative: sign_bit(register.wrapping_sub(operand)),
            ..self
        }
    }

    /// The operand and the carry added to the accumulator. V says that the
    /// addition overflowed as a signed one, and C is set to V.
    pub open spec fn add_with_carry(self, operand: Byte) -> Self {
        let sum = self.ra.wrapping_add(operand).wrapping_add(flag_bit(self.carry));
        let overflow = signed_overflow(self.ra, operand, sum);
        Registers { overflow, carry: overflow, ..self.load_a(sum) }
    }

    /// The operand and the borrow (the inverse of the carry) subtracted from
    /// the accumulator, with V and C as for an addition.
    pub open spec fn subtract_with_carry(self, operand: Byte) -> Self {
        let difference = self.ra.wrapping_add(flag_bit(self.carry)).wrapping_sub(1).wrapping_sub(
            operand,
        );
        let overflow = signed_overflow(self.ra, operand, difference);
        Registers { overflow, carry: overflow, ..self.load_a(difference) }
    }

    /// The flags after a bit test of a memory byte: Z and N follow the
    /// conjunction of the byte and the accumulator, and V is its bit 7.
    pub open spec fn bit_test(self, memory: Byte) -> Self {
        let result = memory & self.ra;
        Registers { overflow: sign_bit(result), ..self.with_zn(result) }
    }

    /// The program counter after a branch that is taken or not.
    pub open spec fn branch(self, taken: bool, displacement: Byte) -> Self {
        if taken {
            Registers { pc: branch_target(self.pc, displacement), ..self }
        } else {
            self
        }
    }
}

/// The cycles of a branch: 2 when it is not taken, 3 when it is taken
/// within the page, 5 when it is taken into another page.
pub open spec fn branch_cycles(pc: Word, taken: bool, displacement: Byte) -> u32 {
    if !taken {
        2
    } else if pages_differ(pc, branch_target(pc, displacement)) {
        5
    } else {
        3
    }
}

/// Whether a branch instruction is taken with the given flags; `None` for
/// an instruction that is no branch.
pub open spec fn branch_taken(regs: Registers, inst: Opcode) -> Option<bool> {
    match inst {
        Opcode::BranchCarryClear(_) => Some(!regs.carry),
        Opcode::BranchCarrySet(_) => Some(regs.carry),
        Opcode::BranchOverflowClear(_) => Some(!regs.overflow),
        Opcode::BranchEqual(_) => Some(regs.zero),
        Opcode::BranchNotEqual(_) => Some(!regs.zero),
        Opcode::BranchMinus(_) => Some(regs.negative),
        Opcode::BranchPositive(_) => Some(!regs.negative),
        _ => None,
    }
}

/// Addressing-mode resolution: the address in memory that an instruction
/// reads or writes, for the instructions that have one.
pub open spec fn effective_address<B: MemoryBus>(regs: Registers, bus: B, inst: Opcode) -> Option<
    Word,
> {
    match inst {
        // zero page
        Opcode::LoadAZeroPage(operand)
        | Opcode::LoadXZero(operand)
        | Opcode::LoadYZero(operand)
        | Opcode::StoreAZeroPage(operand)
        | Opcode::StoreXZeroPage(operand)
        | Opcode::StoreYZeroPage(operand)
        | Opcode::AddCarryZero(operand)
        | Opcode::AndZero(operand)
        | Opcode::OrZero(operand)
        | Opcode::XorZero(operand)
        | Opcode::LShiftZero(operand)
        | Opcode::CompareXZero(operand)
        | Opcode::BitTestZero(operand)
        | Opcode::IncMemZero(operand)
        | Opcode::DecMemZero(operand) => Some(operand as Word),
        // zero page,X
        Opcode::LoadAZeroPageX(operand)
        | Opcode::LoadYZeroX(operand)
        | Opcode::StoreAZeroPageX(operand)
        | Opcode::StoreYZeroPageX(operand)
        | Opcode::AndZeroX(operand) => Some(zero_page_indexed(operand, regs.rx)),
        // zero page,Y
        Opcode::StoreXZeroPageY(operand) => Some(zero_page_indexed(operand, regs.ry)),
        // absolute
        Opcode::LoadAAbsolute(addr)
        | Opcode::StoreAAbsolute(addr)
        | Opcode::StoreXAbsolute(addr)
        | Opcode::StoreYAbsolute(addr)
        | Opcode::AndAbs(addr)
        | Opcode::LogRShiftAbs(addr)
        | Opcode::BitTestAbs(addr) => Some(addr),
        // absolute,X
        Opcode::LoadAAbsoluteX(base)
        | Opcode::LoadYAbsoluteX(base)
        | Opcode::StoreAAbsoluteX(base)
        | Opcode::AndAbsX(base) => Some(indexed(base, regs.rx)),
        // absolute,Y
        Opcode::LoadAAbsoluteY(base)
        | Opcode::StoreAAbsoluteY(base)
        | Opcode::AndAbsY(base) => Some(indexed(base, regs.ry)),
        // (indirect,X)
        Opcode::StoreAIndirectX(operand) | Opcode::AndIndX(operand) => Some(
            indirect_x(bus, operand, regs.rx),
        ),
        // (indirect),Y
        Opcode::LoadAIndY(operand)
        | Opcode::StoreAIndirectY(operand)
        | Opcode::AndIndY(operand) => Some(indexed(pointer_at(bus, operand), regs.ry)),
        _ => None,
    }
}

/// The byte that an instruction works on: its immediate operand, or the
/// byte in memory at its effective address; 0 for an instruction that has
/// neither.
pub open spec fn operand_value<B: MemoryBus>(regs: Registers, bus: B, inst: Opcode) -> Byte {
    match inst {
        Opcode::LoadAImmediate(value)
        | Opcode::LoadXImmediate(value)
        | Opcode::LoadYImmediate(value)
        | Opcode::AddImmediate(value)
        | Opcode::SubCarryImmediate(value)
        | Opcode::AndImm(value)
        | Opcode::XorImm(value)
        | Opcode::CompareImm(value)
        | Opcode::CompareXImm(value)
        | Opcode::CompareYImm(value) => value,
        _ => match effective_address(regs, bus, inst) {
            Some(addr) => bus.peek(addr),
            None => 0,
        },
    }
}

/// The memory that an instruction leaves behind.
pub open spec fn bus_after<B: MemoryBus>(regs: Registers, bus: B, inst: Opcode) -> B {
    let addr = effective_address(regs, bus, inst).unwrap_or(0);
    let memory = operand_value(regs, bus, inst);
    match inst {
        Opcode::StoreAZeroPage(_)
        | Opcode::StoreAZeroPageX(_)
        | Opcode::StoreAAbsolute(_)
        | Opcode::StoreAAbsoluteX(_)
        | Opcode::StoreAAbsoluteY(_)
        | Opcode::StoreAIndirectX(_)
        | Opcode::StoreAIndirectY(_) => bus.poke(addr, regs.ra),
        Opcode::StoreXZeroPage(_) | Opcode::StoreXZeroPageY(_) | Opcode::StoreXAbsolute(_) => bus.poke(
            addr,
            regs.rx,
        ),
        Opcode::StoreYZeroPage(_) | Opcode::StoreYZeroPageX(_) | Opcode::StoreYAbsolute(_) => bus.poke(
            addr,
            regs.ry,
        ),
        Opcode::IncMemZero(_) => bus.poke(addr, memory.wrapping_add(1)),
        Opcode::DecMemZero(_) => bus.poke(addr, memory.wrapping_sub(1)),
        Opcode::LShiftZero(_) => bus.poke(addr, memory << 1),
        Opcode::LogRShiftAbs(_) => bus.poke(addr, memory >> 1),
        Opcode::PushAcc => push_byte(bus, regs.sp, regs.ra),
        Opcode::JumpSubroutine(_) => push_word(bus, regs.sp, regs.pc.wrapping_sub(1)),
        Opcode::Break => push_byte(
            push_word(bus, regs.sp, regs.pc.wrapping_sub(1)),
            regs.sp.wrapping_sub(2),
            Registers { break_command: true, ..regs }.status(),
        ),
        _ => bus,
    }
}

/// The registers that an instruction leaves behind. The program counter it
/// starts from points behind the instruction.
pub open spec fn registers_after<B: MemoryBus>(regs: Registers, bus: B, inst: Opcode) -> Registers {
    let memory = operand_value(regs, bus, inst);
    match inst {
        // loads
        Opcode::LoadAImmediate(_)
        | Opcode::LoadAZeroPage(_)
        | Opcode::LoadAZeroPageX(_)
        | Opcode::LoadAAbsolute(_)
        | Opcode::LoadAAbsoluteX(_)
        | Opcode::LoadAAbsoluteY(_)
        | Opcode::LoadAIndY(_) => regs.load_a(memory),
        Opcode::LoadXImmediate(_) | Opcode::LoadXZero(_) => regs.load_x(memory),
        Opcode::LoadYImmediate(_)
        | Opcode::LoadYZero(_)
        | Opcode::LoadYZeroX(_)
        | Opcode::LoadYAbsoluteX(_) => regs.load_y(memory),
        // transfers; the one to the stack pointer leaves the flags alone
        Opcode::MoveAY => regs.load_y(regs.ra),
        Opcode::MoveAX => regs.load_x(regs.ra),
        Opcode::MoveSX => regs.load_x(regs.sp),
        Opcode::MoveYA => regs.load_a(regs.ry),
        Opcode::MoveXA => regs.load_a(regs.rx),
        Opcode::MoveXS => Registers { sp: regs.rx, ..regs },
        // arithmetic and logic on the accumulator
        Opcode::AddImmediate(_) | Opcode::AddCarryZero(_) => regs.add_with_carry(memory),
        Opcode::SubCarryImmediate(_) => regs.subtract_with_carry(memory),
        Opcode::AndImm(_)
        | Opcode::AndZero(_)
        | Opcode::AndZeroX(_)
        | Opcode::AndAbs(_)
        | Opcode::AndAbsX(_)
        | Opcode::AndAbsY(_)
        | Opcode::AndIndX(_)
        | Opcode::AndIndY(_) => regs.load_a(memory & regs.ra),
        Opcode::OrZero(_) => regs.load_a(regs.ra | memory),
        Opcode::XorImm(_) | Opcode::XorZero(_) => regs.load_a(regs.ra ^ memory),
        // shifts and rotates
        Opcode::LShiftAcc => Registers { carry: sign_bit(regs.ra), ..regs.load_a(regs.ra << 1) },
        Opcode::LShiftZero(_) => Registers { carry: sign_bit(memory), ..regs.with_zn(memory << 1) },
        Opcode::LogRShiftAcc => Registers { carry: low_bit(regs.ra), ..regs.load_a(regs.ra >> 1) },
        Opcode::LogRShiftAbs(_) => Registers { carry: low_bit(memory), ..regs.with_zn(memory >> 1) },
        Opcode::RotateLAcc => Registers {
            carry: sign_bit(regs.ra),
            ..regs.load_a(regs.ra << 1 | flag_bit(regs.carry))
        },
        Opcode::RotateRAcc => Registers {
            carry: low_bit(regs.ra),
            ..regs.load_a(regs.ra >> 1 | flag_bit(regs.carry) << 7)
        },
        // comparisons and bit tests
        Opcode::CompareImm(_) => regs.compare(regs.ra, memory),
        Opcode::CompareXImm(_) | Opcode::CompareXZero(_) => regs.compare(regs.rx, memory),
        Opcode::CompareYImm(_) => regs.compare(regs.ry, memory),
        Opcode::BitTestZero(_) | Opcode::BitTestAbs(_) => regs.bit_test(memory),
        // increments and decrements
        Opcode::IncX => regs.load_x(regs.rx.wrapping_add(1)),
        Opcode::DecX => regs.load_x(regs.rx.wrapping_sub(1)),
        Opcode::IncY => regs.load_y(regs.ry.wrapping_add(1)),
        Opcode::DecY => regs.load_y(regs.ry.wrapping_sub(1)),
        Opcode::IncMemZero(_) => regs.with_zn(memory.wrapping_add(1)),
        Opcode::DecMemZero(_) => regs.with_zn(memory.wrapping_sub(1)),
        // jumps and subroutines
        Opcode::JumpAbs(target) => Registers { pc: target, ..regs },
        Opcode::JumpInd(pointer) => Registers { pc: word_abs(bus, pointer), ..regs },
        Opcode::JumpSubroutine(target) => Registers {
            pc: target,
            sp: regs.sp.wrapping_sub(2),
            ..regs
        },
        Opcode::RetSubroutine => Registers {
            pc: pull_word(bus, regs.sp).wrapping_add(1),
            sp: regs.sp.wrapping_add(2),
            ..regs
        },
        // branches
        Opcode::BranchCarryClear(displacement)
        | Opcode::BranchCarrySet(displacement)
        | Opcode::BranchOverflowClear(displacement)
        | Opcode::BranchEqual(displacement)
        | Opcode::BranchNotEqual(displacement)
        | Opcode::BranchMinus(displacement)
        | Opcode::BranchPositive(displacement) => regs.branch(
            branch_taken(regs, inst).unwrap_or(false),
            displacement,
        ),
        // the stack; a pull loads the accumulator, Z and N following it
        Opcode::PushAcc => Registers { sp: regs.sp.wrapping_sub(1), ..regs },
        Opcode::PullAcc => Registers {
            sp: regs.sp.wrapping_add(1),
            ..regs.load_a(pull_byte(bus, regs.sp))
        },
        // flags
        Opcode::SetCarry => Registers { carry: true, ..regs },
        Opcode::ClearCarry => Registers { carry: false, ..regs },
        Opcode::InterruptDisable => Registers { interrupt_disable: true, ..regs },
        Opcode::SetDecimalMode => Registers { decimal_mode: true, ..regs },
        Opcode::ClearDecimalMode => Registers { decimal_mode: false, ..regs },
        // the break: B is set, the return address and the flags are pushed,
        // and the program counter comes from the interrupt vector
        Opcode::Break => Registers {
            break_command: true,
            sp: regs.sp.wrapping_sub(3),
            pc: word_abs(bus_after(regs, bus, inst), 0xfffe),
            ..regs
        },
        // stores and the no-operation change no register
        _ => regs,
    }
}

/// The cycle cost table: the cycles that an instruction posts.
pub open spec fn cycle_cost<B: MemoryBus>(regs: Registers, bus: B, inst: Opcode) -> u32 {
    match inst {
        // immediate operands, register transfers, increments and decrements
        // of registers, shifts of the accumulator, flag changes
        Opcode::LoadAImmediate(_)
        | Opcode::LoadXImmediate(_)
        | Opcode::LoadYImmediate(_)
        | Opcode::MoveAY
        | Opcode::MoveAX
        | Opcode::MoveSX
        | Opcode::MoveYA
        | Opcode::MoveXA
        | Opcode::MoveXS
        | Opcode::AddImmediate(_)
        | Opcode::SubCarryImmediate(_)
        | Opcode::AndImm(_)
        | Opcode::XorImm(_)
        | Opcode::LShiftAcc
        | Opcode::LogRShiftAcc
        | Opcode::RotateLAcc
        | Opcode::RotateRAcc
        | Opcode::CompareImm(_)
        | Opcode::CompareXImm(_)
        | Opcode::CompareYImm(_)
        | Opcode::IncX
        | Opcode::DecX
        | Opcode::IncY
        | Opcode::DecY
        | Opcode::SetCarry
        | Opcode::ClearCarry
        | Opcode::InterruptDisable
        | Opcode::SetDecimalMode
        | Opcode::ClearDecimalMode
        | Opcode::NoOp => 2,
        // zero page reads and stores, the absolute jump, the push
        Opcode::LoadAZeroPage(_)
        | Opcode::LoadXZero(_)
        | Opcode::LoadYZero(_)
        | Opcode::StoreAZeroPage(_)
        | Opcode::StoreXZeroPage(_)
        | Opcode::StoreYZeroPage(_)
        | Opcode::AddCarryZero(_)
        | Opcode::AndZero(_)
        | Opcode::OrZero(_)
        | Opcode::XorZero(_)
        | Opcode::CompareXZero(_)
        | Opcode::BitTestZero(_)
        | Opcode::JumpAbs(_)
        | Opcode::PushAcc => 3,
        // indexed zero page and absolute reads and stores, the pull
        Opcode::LoadAZeroPageX(_)
        | Opcode::LoadYZeroX(_)
        | Opcode::LoadAAbsolute(_)
        | Opcode::StoreAZeroPageX(_)
        | Opcode::StoreXZeroPageY(_)
        | Opcode::StoreYZeroPageX(_)
        | Opcode::StoreAAbsolute(_)
        | Opcode::StoreXAbsolute(_)
        | Opcode::StoreYAbsolute(_)
        | Opcode::AndZeroX(_)
        | Opcode::AndAbs(_)
        | Opcode::BitTestAbs(_)
        | Opcode::PullAcc => 4,
        // indexed absolute reads: one more cycle when the page is left
        Opcode::LoadAAbsoluteX(base)
        | Opcode::LoadYAbsoluteX(base)
        | Opcode::AndAbsX(base) => with_page_penalty(4, base, indexed(base, regs.rx)),
        Opcode::LoadAAbsoluteY(base) | Opcode::AndAbsY(base) => with_page_penalty(
            4,
            base,
            indexed(base, regs.ry),
        ),
        // indexed absolute stores, changes of a zero page cell, the
        // indirect jump
        Opcode::StoreAAbsoluteX(_)
        | Opcode::StoreAAbsoluteY(_)
        | Opcode::LShiftZero(_)
        | Opcode::IncMemZero(_)
        | Opcode::DecMemZero(_)
        | Opcode::JumpInd(_) => 5,
        // post-indexed indirect reads: one more cycle when the page is left
        Opcode::LoadAIndY(operand) | Opcode::AndIndY(operand) => with_page_penalty(
            5,
            pointer_at(bus, operand),
            indexed(pointer_at(bus, operand), regs.ry),
        ),
        // indirect stores, the pre-indexed indirect read, the shift of an
        // absolute cell, the call
        Opcode::StoreAIndirectX(_)
        | Opcode::StoreAIndirectY(_)
        | Opcode::AndIndX(_)
        | Opcode::LogRShiftAbs(_)
        | Opcode::JumpSubroutine(_) => 6,
        // the return and the break
        Opcode::RetSubroutine | Opcode::Break => 7,
        // branches
        Opcode::BranchCarryClear(displacement)
        | Opcode::BranchCarrySet(displacement)
        | Opcode::BranchOverflowClear(displacement)
        | Opcode::BranchEqual(displacement)
        | Opcode::BranchNotEqual(displacement)
        | Opcode::BranchMinus(displacement)
        | Opcode::BranchPositive(displacement) => branch_cycles(
            regs.pc,
            branch_taken(regs, inst).unwrap_or(false),
            displacement,
        ),
    }
}

/// Every tick consumer of a list after it has been handed a cycle count.
pub open spec fn tick_all<H: ClockHandler>(sinks: Seq<H>, clocks: u32) -> Seq<H> {
    Seq::new(sinks.len(), |i: int| sinks[i].after_clock(clocks))
}

/// A whole machine: the registers, the cycle counter, the tick consumers in
/// the order in which they are served, and the memory.
pub struct Machine<H, B> {
    pub regs: Registers,
    pub cycles: u128,
    pub sinks: Seq<H>,
    pub bus: B,
}

impl<H: ClockHandler, B: MemoryBus> Machine<H, B> {
    /// The machine with another program counter.
    pub open spec fn at(self, pc: Word) -> Self {
        Machine { regs: Registers { pc, ..self.regs }, ..self }
    }

    /// The machine after a cycle count has been handed to the tick
    /// consumers of the processor: the counter advances by it, wrapping at
    /// its maximum, and every consumer is handed it.
    pub open spec fn post_to_sinks(self, clocks: u32) -> Self {
        Machine {
            cycles: self.cycles.wrapping_add(clocks as u128),
            sinks: tick_all(self.sinks, clocks),
            ..self
        }
    }

    /// The machine after a cycle count has been posted: it is handed to the
    /// tick consumers of the processor, in their order, and then to the
    /// bus, for the devices on it that count cycles.
    pub open spec fn post(self, clocks: u32) -> Self {
        Machine { bus: self.bus.after_clock(clocks), ..self.post_to_sinks(clocks) }
    }

    /// The machine after the processor's own part of an instruction whose
    /// bytes have been fetched: registers and memory change as the
    /// instruction says, and its cycle cost is handed to the processor's
    /// tick consumers.
    pub open spec fn perform(self, inst: Opcode) -> Self {
        Machine {
            regs: registers_after(self.regs, self.bus, inst),
            bus: bus_after(self.regs, self.bus, inst),
            ..self
        }.post_to_sinks(cycle_cost(self.regs, self.bus, inst))
    }

    /// The machine after it has executed an instruction whose bytes have
    /// been fetched: registers and memory change as the instruction says,
    /// and its cycle cost is posted once, when the instruction is complete.
    pub open spec fn execute(self, inst: Opcode) -> Self {
        Machine {
            regs: registers_after(self.regs, self.bus, inst),
            bus: bus_after(self.regs, self.bus, inst),
            ..self
        }.post(cycle_cost(self.regs, self.bus, inst))
    }

    /// The machine after one fetch, decode and execute; or, where the byte
    /// at the program counter encodes no instruction, the error and the
    /// machine with the program counter behind that byte.
    pub open spec fn cycle(self) -> Result<Self, (EmulatorError, Self)> {
        match decode(self.bus, self.regs.pc) {
            Ok((inst, next)) => Ok(self.at(next).execute(inst)),
            Err(error) => Err((error, self.at(self.regs.pc.wrapping_add(1)))),
        }
    }

    /// The machine after at most `budget` instructions, and the error that
    /// stopped it if one did before the budget was used up.
    pub open spec fn run(self, budget: nat) -> (Option<EmulatorError>, Self)
        decreases budget,
    {
        if budget == 0 {
            (None, self)
        } else {
            match self.cycle() {
                Ok(next) => next.run((budget - 1) as nat),
                Err((error, halted)) => (Some(error), halted),
            }
        }
    }

    /// The machine with the program counter loaded from the reset vector,
    /// the little-endian word at 0xFFFC and 0xFFFD.
    pub open spec fn reset(self) -> Self {
        self.at(word_of(self.bus.peek(0xfffc), self.bus.peek(0xfffd)))
    }
}

} // verus!
