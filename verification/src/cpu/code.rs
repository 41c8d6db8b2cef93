//! The instruction set: every instruction with its operand, the byte that
//! encodes it, and the decoder that reads one instruction from memory.

use vstd::prelude::*;
use crate::cpu::{ClockHandler, Cpu, OpcodeDecoder};
use crate::data_types::{Byte, Word};
use crate::error::EmulatorError;
use crate::memory_bus::{word_of, MemoryBus};

verus! {

/// An instruction together with its operand: one byte, one little-endian
/// word, or none.
#[derive(Clone, Copy, Debug, PartialEq, Eq, Structural)]
pub enum Opcode {
    /// `LDA #imm`, encoded as 0xa9.
    LoadAImmediate(Byte),
    /// `LDA zp`, encoded as 0xa5.
    LoadAZeroPage(Byte),
    /// `LDA zp,X`, encoded as 0xb5.
    LoadAZeroPageX(Byte),
    /// `LDA abs`, encoded as 0xad.
    LoadAAbsolute(Word),
    /// `LDA abs,X`, encoded as 0xbd.
    LoadAAbsoluteX(Word),
    /// `LDA abs,Y`, encoded as 0xb9.
    LoadAAbsoluteY(Word),
    /// `LDA (zp),Y`, encoded as 0xb1.
    LoadAIndY(Byte),
    /// `LDX #imm`, encoded as 0xa2.
    LoadXImmediate(Byte),
    /// `LDX zp`, encoded as 0xa6.
    LoadXZero(Byte),
    /// `LDY #imm`, encoded as 0xa0.
    LoadYImmediate(Byte),
    /// `LDY zp`, encoded as 0xa4.
    LoadYZero(Byte),
    /// `LDY zp,X`, encoded as 0xb4.
    LoadYZeroX(Byte),
    /// `LDY abs,X`, encoded as 0xbc.
    LoadYAbsoluteX(Word),
    /// `STA zp`, encoded as 0x85.
    StoreAZeroPage(Byte),
    /// `STA zp,X`, encoded as 0x95.
    StoreAZeroPageX(Byte),
    /// `STA abs`, encoded as 0x8d.
    StoreAAbsolute(Word),
    /// `STA abs,X`, encoded as 0x9d.
    StoreAAbsoluteX(Word),
    /// `STA abs,Y`, encoded as 0x99.
    StoreAAbsoluteY(Word),
    /// `STA (zp,X)`, encoded as 0x81.
    StoreAIndirectX(Byte),
    /// `STA (zp),Y`, encoded as 0x91.
    StoreAIndirectY(Byte),
    /// `STX zp`, encoded as 0x86.
    StoreXZeroPage(Byte),
    /// `STX zp,Y`, encoded as 0x96.
    StoreXZeroPageY(Byte),
    /// `STX abs`, encoded as 0x8e.
    StoreXAbsolute(Word),
    /// `STY zp`, encoded as 0x84.
    StoreYZeroPage(Byte),
    /// `STY zp,X`, encoded as 0x94.
    StoreYZeroPageX(Byte),
    /// `STY abs`, encoded as 0x8c.
    StoreYAbsolute(Word),
    /// `TAY`, encoded as 0xa8.
    MoveAY,
    /// `TAX`, encoded as 0xaa.
    MoveAX,
    /// `TSX`, encoded as 0xba.
    MoveSX,
    /// `TYA`, encoded as 0x98.
    MoveYA,
    /// `TXA`, encoded as 0x8a.
    MoveXA,
    /// `TXS`, encoded as 0x9a.
    MoveXS,
    /// `ADC #imm`, encoded as 0x69.
    AddImmediate(Byte),
    /// `ADC zp`, encoded as 0x65.
    AddCarryZero(Byte),
    /// `SBC #imm`, encoded as 0xe9.
    SubCarryImmediate(Byte),
    /// `AND #imm`, encoded as 0x29.
    AndImm(Byte),
    /// `AND zp`, encoded as 0x25.
    AndZero(Byte),
    /// `AND zp,X`, encoded as 0x35.
    AndZeroX(Byte),
    /// `AND abs`, encoded as 0x2d.
    AndAbs(Word),
    /// `AND abs,X`, encoded as 0x3d.
    AndAbsX(Word),
    /// `AND abs,Y`, encoded as 0x39.
    AndAbsY(Word),
    /// `AND (zp,X)`, encoded as 0x21.
    AndIndX(Byte),
    /// `AND (zp),Y`, encoded as 0x31.
    AndIndY(Byte),
    /// `ORA zp`, encoded as 0x05.
    OrZero(Byte),
    /// `EOR #imm`, encoded as 0x49.
    XorImm(Byte),
    /// `EOR zp`, encoded as 0x45.
    XorZero(Byte),
    /// `ASL A`, encoded as 0x0a.
    LShiftAcc,
    /// `ASL zp`, encoded as 0x06.
    LShiftZero(Byte),
    /// `LSR A`, encoded as 0x4a.
    LogRShiftAcc,
    /// `LSR abs`, encoded as 0x4e.
    LogRShiftAbs(Word),
    /// `ROL A`, encoded as 0x2a.
    RotateLAcc,
    /// `ROR A`, encoded as 0x6a.
    RotateRAcc,
    /// `CMP #imm`, encoded as 0xc9.
    CompareImm(Byte),
    /// `CPX #imm`, encoded as 0xe0.
    CompareXImm(Byte),
    /// `CPX zp`, encoded as 0xe4.
    CompareXZero(Byte),
    /// `CPY #imm`, encoded as 0xc0.
    CompareYImm(Byte),
    /// `BIT zp`, encoded as 0x24.
    BitTestZero(Byte),
    /// `BIT abs`, encoded as 0x2c.
    BitTestAbs(Word),
    /// `INX`, encoded as 0xe8.
    IncX,
    /// `DEX`, encoded as 0xca.
    DecX,
    /// `INY`, encoded as 0xc8.
    IncY,
    /// `DEY`, encoded as 0x88.
    DecY,
    /// `INC zp`, encoded as 0xe6.
    IncMemZero(Byte),
    /// `DEC zp`, encoded as 0xc6.
    DecMemZero(Byte),
    /// `JMP abs`, encoded as 0x4c.
    JumpAbs(Word),
    /// `JMP (abs)`, encoded as 0x6c.
    JumpInd(Word),
    /// `JSR abs`, encoded as 0x20.
    JumpSubroutine(Word),
    /// `RTS`, encoded as 0x60.
    RetSubroutine,
    /// `BCC`, encoded as 0x90.
    BranchCarryClear(Byte),
    /// `BCS`, encoded as 0xb0.
    BranchCarrySet(Byte),
    /// `BEQ`, encoded as 0xf0.
    BranchEqual(Byte),
    /// `BNE`, encoded as 0xd0.
    BranchNotEqual(Byte),
    /// `BMI`, encoded as 0x30.
    BranchMinus(Byte),
    /// `BPL`, encoded as 0x10.
    BranchPositive(Byte),
    /// `BVC`, encoded as 0x50.
    BranchOverflowClear(Byte),
    /// `PHA`, encoded as 0x48.
    PushAcc,
    /// `PLA`, encoded as 0x68.
    PullAcc,
    /// `SEC`, encoded as 0x38.
    SetCarry,
    /// `CLC`, encoded as 0x18.
    ClearCarry,
    /// `SEI`, encoded as 0x78.
    InterruptDisable,
    /// `SED`, encoded as 0xf8.
    SetDecimalMode,
    /// `CLD`, encoded as 0xd8.
    ClearDecimalMode,
    /// `NOP`, encoded as 0xea.
    NoOp,
    /// `BRK`, encoded as 0x00.
    Break,
}

/// The number of operand bytes that follow the encoding byte `code`; `None`
/// where `code` encodes no instruction.
pub open spec fn operand_len_of(code: Byte) -> Option<Word> {
    match code {
        0x00 | 0x0a | 0x18 | 0x2a | 0x38 | 0x48 | 0x4a | 0x60 | 0x68 | 0x6a | 0x78 | 0x88
        | 0x8a | 0x98 | 0x9a | 0xa8 | 0xaa | 0xba | 0xc8 | 0xca | 0xd8 | 0xe8 | 0xea | 0xf8 => Some(0),
        0x05 | 0x06 | 0x10 | 0x21 | 0x24 | 0x25 | 0x29 | 0x30 | 0x31 | 0x35 | 0x45 | 0x49
        | 0x50 | 0x65 | 0x69 | 0x81 | 0x84 | 0x85 | 0x86 | 0x90 | 0x91 | 0x94 | 0x95 | 0x96
        | 0xa0 | 0xa2 | 0xa4 | 0xa5 | 0xa6 | 0xa9 | 0xb0 | 0xb1 | 0xb4 | 0xb5 | 0xc0 | 0xc6
        | 0xc9 | 0xd0 | 0xe0 | 0xe4 | 0xe6 | 0xe9 | 0xf0 => Some(1),
        0x20 | 0x2c | 0x2d | 0x39 | 0x3d | 0x4c | 0x4e | 0x6c | 0x8c | 0x8d | 0x8e | 0x99
        | 0x9d | 0xad | 0xb9 | 0xbc | 0xbd => Some(2),
        _ => None,
    }
}

/// The opcode table: the instruction that `code` encodes, carrying
/// `operand`; `None` where `code` encodes no instruction. An instruction
/// with a one-byte operand takes the low byte of `operand`, one without an
/// operand takes nothing of it.
pub open spec fn assemble(code: Byte, operand: Word) -> Option<Opcode> {
    match code {
        0x00 => Some(Opcode::Break),
        0x05 => Some(Opcode::OrZero(#[verifier::truncate] (operand as Byte))),
        0x06 => Some(Opcode::LShiftZero(#[verifier::truncate] (operand as Byte))),
        0x0a => Some(Opcode::LShiftAcc),
        0x10 => Some(Opcode::BranchPositive(#[verifier::truncate] (operand as Byte))),
        0x18 => Some(Opcode::ClearCarry),
        0x20 => Some(Opcode::JumpSubroutine(operand)),
        0x21 => Some(Opcode::AndIndX(#[verifier::truncate] (operand as Byte))),
        0x24 => Some(Opcode::BitTestZero(#[verifier::truncate] (operand as Byte))),
        0x25 => Some(Opcode::AndZero(#[verifier::truncate] (operand as Byte))),
        0x29 => Some(Opcode::AndImm(#[verifier::truncate] (operand as Byte))),
        0x2a => Some(Opcode::RotateLAcc),
        0x2c => Some(Opcode::BitTestAbs(operand)),
        0x2d => Some(Opcode::AndAbs(operand)),
        0x30 => Some(Opcode::BranchMinus(#[verifier::truncate] (operand as Byte))),
        0x31 => Some(Opcode::AndIndY(#[verifier::truncate] (operand as Byte))),
        0x35 => Some(Opcode::AndZeroX(#[verifier::truncate] (operand as Byte))),
        0x38 => Some(Opcode::SetCarry),
        0x39 => Some(Opcode::AndAbsY(operand)),
        0x3d => Some(Opcode::AndAbsX(operand)),
        0x45 => Some(Opcode::XorZero(#[verifier::truncate] (operand as Byte))),
        0x48 => Some(Opcode::PushAcc),
        0x49 => Some(Opcode::XorImm(#[verifier::truncate] (operand as Byte))),
        0x4a => Some(Opcode::LogRShiftAcc),
        0x4c => Some(Opcode::JumpAbs(operand)),
        0x4e => Some(Opcode::LogRShiftAbs(operand)),
        0x50 => Some(Opcode::BranchOverflowClear(#[verifier::truncate] (operand as Byte))),
        0x60 => Some(Opcode::RetSubroutine),
        0x65 => Some(Opcode::AddCarryZero(#[verifier::truncate] (operand as Byte))),
        0x68 => Some(Opcode::PullAcc),
        0x69 => Some(Opcode::AddImmediate(#[verifier::truncate] (operand as Byte))),
        0x6a => Some(Opcode::RotateRAcc),
        0x6c => Some(Opcode::JumpInd(operand)),
        0x78 => Some(Opcode::InterruptDisable),
        0x81 => Some(Opcode::StoreAIndirectX(#[verifier::truncate] (operand as Byte))),
        0x84 => Some(Opcode::StoreYZeroPage(#[verifier::truncate] (operand as Byte))),
        0x85 => Some(Opcode::StoreAZeroPage(#[verifier::truncate] (operand as Byte))),
        0x86 => Some(Opcode::StoreXZeroPage(#[verifier::truncate] (operand as Byte))),
        0x88 => Some(Opcode::DecY),
        0x8a => Some(Opcode::MoveXA),
        0x8c => Some(Opcode::StoreYAbsolute(operand)),
        0x8d => Some(Opcode::StoreAAbsolute(operand)),
        0x8e => Some(Opcode::StoreXAbsolute(operand)),
        0x90 => Some(Opcode::BranchCarryClear(#[verifier::truncate] (operand as Byte))),
        0x91 => Some(Opcode::StoreAIndirectY(#[verifier::truncate] (operand as Byte))),
        0x94 => Some(Opcode::StoreYZeroPageX(#[verifier::truncate] (operand as Byte))),
        0x95 => Some(Opcode::StoreAZeroPageX(#[verifier::truncate] (operand as Byte))),
        0x96 => Some(Opcode::StoreXZeroPageY(#[verifier::truncate] (operand as Byte))),
        0x98 => Some(Opcode::MoveYA),
        0x99 => Some(Opcode::StoreAAbsoluteY(operand)),
        0x9a => Some(Opcode::MoveXS),
        0x9d => Some(Opcode::StoreAAbsoluteX(operand)),
        0xa0 => Some(Opcode::LoadYImmediate(#[verifier::truncate] (operand as Byte))),
        0xa2 => Some(Opcode::LoadXImmediate(#[verifier::truncate] (operand as Byte))),
        0xa4 => Some(Opcode::LoadYZero(#[verifier::truncate] (operand as Byte))),
        0xa5 => Some(Opcode::LoadAZeroPage(#[verifier::truncate] (operand as Byte))),
        0xa6 => Some(Opcode::LoadXZero(#[verifier::truncate] (operand as Byte))),
        0xa8 => Some(Opcode::MoveAY),
        0xa9 => Some(Opcode::LoadAImmediate(#[verifier::truncate] (operand as Byte))),
        0xaa => Some(Opcode::MoveAX),
        0xad => Some(Opcode::LoadAAbsolute(operand)),
        0xb0 => Some(Opcode::BranchCarrySet(#[verifier::truncate] (operand as Byte))),
        0xb1 => Some(Opcode::LoadAIndY(#[verifier::truncate] (operand as Byte))),
        0xb4 => Some(Opcode::LoadYZeroX(#[verifier::truncate] (operand as Byte))),
        0xb5 => Some(Opcode::LoadAZeroPageX(#[verifier::truncate] (operand as Byte))),
        0xb9 => Some(Opcode::LoadAAbsoluteY(operand)),
        0xba => Some(Opcode::MoveSX),
        0xbc => Some(Opcode::LoadYAbsoluteX(operand)),
        0xbd => Some(Opcode::LoadAAbsoluteX(operand)),
        0xc0 => Some(Opcode::CompareYImm(#[verifier::truncate] (operand as Byte))),
        0xc6 => Some(Opcode::DecMemZero(#[verifier::truncate] (operand as Byte))),
        0xc8 => Some(Opcode::IncY),
        0xc9 => Some(Opcode::CompareImm(#[verifier::truncate] (operand as Byte))),
        0xca => Some(Opcode::DecX),
        0xd0 => Some(Opcode::BranchNotEqual(#[verifier::truncate] (operand as Byte))),
        0xd8 => Some(Opcode::ClearDecimalMode),
        0xe0 => Some(Opcode::CompareXImm(#[verifier::truncate] (operand as Byte))),
        0xe4 => Some(Opcode::CompareXZero(#[verifier::truncate] (operand as Byte))),
        0xe6 => Some(Opcode::IncMemZero(#[verifier::truncate] (operand as Byte))),
        0xe8 => Some(Opcode::IncX),
        0xe9 => Some(Opcode::SubCarryImmediate(#[verifier::truncate] (operand as Byte))),
        0xea => Some(Opcode::NoOp),
        0xf0 => Some(Opcode::BranchEqual(#[verifier::truncate] (operand as Byte))),
        0xf8 => Some(Opcode::SetDecimalMode),
        _ => None,
    }
}

/// The operand of `len` bytes behind the encoding byte at `pc`: nothing, the
/// next byte, or the little-endian word of the next two bytes.
pub open spec fn operand_at<B: MemoryBus>(bus: B, pc: Word, len: Word) -> Word {
    if len == 0 {
        0
    } else if len == 1 {
        bus.peek(pc.wrapping_add(1)) as Word
    } else {
        word_of(bus.peek(pc.wrapping_add(1)), bus.peek(pc.wrapping_add(2)))
    }
}

/// What decoding at `pc` yields: the instruction there and the address that
/// follows it, or the error for a byte that encodes no instruction.
pub open spec fn decode<B: MemoryBus>(bus: B, pc: Word) -> Result<(Opcode, Word), EmulatorError> {
    let code = bus.peek(pc);
    match operand_len_of(code) {
        Some(len) => match assemble(code, operand_at(bus, pc, len)) {
            Some(inst) => Ok((inst, pc.wrapping_add((1 + len) as Word))),
            None => Err(EmulatorError::UnknownOpcode(code, pc)),
        },
        None => Err(EmulatorError::UnknownOpcode(code, pc)),
    }
}

impl Opcode {
    /// The byte that encodes the instruction.
    pub open spec fn code(self) -> Byte {
        match self {
            Opcode::LoadAImmediate(_) => 0xa9,
            Opcode::LoadAZeroPage(_) => 0xa5,
            Opcode::LoadAZeroPageX(_) => 0xb5,
            Opcode::LoadAAbsolute(_) => 0xad,
            Opcode::LoadAAbsoluteX(_) => 0xbd,
            Opcode::LoadAAbsoluteY(_) => 0xb9,
            Opcode::LoadAIndY(_) => 0xb1,
            Opcode::LoadXImmediate(_) => 0xa2,
            Opcode::LoadXZero(_) => 0xa6,
            Opcode::LoadYImmediate(_) => 0xa0,
            Opcode::LoadYZero(_) => 0xa4,
            Opcode::LoadYZeroX(_) => 0xb4,
            Opcode::LoadYAbsoluteX(_) => 0xbc,
            Opcode::StoreAZeroPage(_) => 0x85,
            Opcode::StoreAZeroPageX(_) => 0x95,
            Opcode::StoreAAbsolute(_) => 0x8d,
            Opcode::StoreAAbsoluteX(_) => 0x9d,
            Opcode::StoreAAbsoluteY(_) => 0x99,
            Opcode::StoreAIndirectX(_) => 0x81,
            Opcode::StoreAIndirectY(_) => 0x91,
            Opcode::StoreXZeroPage(_) => 0x86,
            Opcode::StoreXZeroPageY(_) => 0x96,
            Opcode::StoreXAbsolute(_) => 0x8e,
            Opcode::StoreYZeroPage(_) => 0x84,
            Opcode::StoreYZeroPageX(_) => 0x94,
            Opcode::StoreYAbsolute(_) => 0x8c,
            Opcode::MoveAY => 0xa8,
            Opcode::MoveAX => 0xaa,
            Opcode::MoveSX => 0xba,
            Opcode::MoveYA => 0x98,
            Opcode::MoveXA => 0x8a,
            Opcode::MoveXS => 0x9a,
            Opcode::AddImmediate(_) => 0x69,
            Opcode::AddCarryZero(_) => 0x65,
            Opcode::SubCarryImmediate(_) => 0xe9,
            Opcode::AndImm(_) => 0x29,
            Opcode::AndZero(_) => 0x25,
            Opcode::AndZeroX(_) => 0x35,
            Opcode::AndAbs(_) => 0x2d,
            Opcode::AndAbsX(_) => 0x3d,
            Opcode::AndAbsY(_) => 0x39,
            Opcode::AndIndX(_) => 0x21,
            Opcode::AndIndY(_) => 0x31,
            Opcode::OrZero(_) => 0x05,
            Opcode::XorImm(_) => 0x49,
            Opcode::XorZero(_) => 0x45,
            Opcode::LShiftAcc => 0x0a,
            Opcode::LShiftZero(_) => 0x06,
            Opcode::LogRShiftAcc => 0x4a,
            Opcode::LogRShiftAbs(_) => 0x4e,
            Opcode::RotateLAcc => 0x2a,
            Opcode::RotateRAcc => 0x6a,
            Opcode::CompareImm(_) => 0xc9,
            Opcode::CompareXImm(_) => 0xe0,
            Opcode::CompareXZero(_) => 0xe4,
            Opcode::CompareYImm(_) => 0xc0,
            Opcode::BitTestZero(_) => 0x24,
            Opcode::BitTestAbs(_) => 0x2c,
            Opcode::IncX => 0xe8,
            Opcode::DecX => 0xca,
            Opcode::IncY => 0xc8,
            Opcode::DecY => 0x88,
            Opcode::IncMemZero(_) => 0xe6,
            Opcode::DecMemZero(_) => 0xc6,
            Opcode::JumpAbs(_) => 0x4c,
            Opcode::JumpInd(_) => 0x6c,
            Opcode::JumpSubroutine(_) => 0x20,
            Opcode::RetSubroutine => 0x60,
            Opcode::BranchCarryClear(_) => 0x90,
            Opcode::BranchCarrySet(_) => 0xb0,
            Opcode::BranchEqual(_) => 0xf0,
            Opcode::BranchNotEqual(_) => 0xd0,
            Opcode::BranchMinus(_) => 0x30,
            Opcode::BranchPositive(_) => 0x10,
            Opcode::BranchOverflowClear(_) => 0x50,
            Opcode::PushAcc => 0x48,
            Opcode::PullAcc => 0x68,
            Opcode::SetCarry => 0x38,
            Opcode::ClearCarry => 0x18,
            Opcode::InterruptDisable => 0x78,
            Opcode::SetDecimalMode => 0xf8,
            Opcode::ClearDecimalMode => 0xd8,
            Opcode::NoOp => 0xea,
            Opcode::Break => 0x00,
        }
    }

    /// The number of operand bytes that follow the encoding byte.
    pub open spec fn operand_len(self) -> Word {
        match self {
            Opcode::LoadAImmediate(_)
            | Opcode::LoadAZeroPage(_)
            | Opcode::LoadAZeroPageX(_)
            | Opcode::LoadAIndY(_)
            | Opcode::LoadXImmediate(_)
            | Opcode::LoadXZero(_)
            | Opcode::LoadYImmediate(_)
            | Opcode::LoadYZero(_)
            | Opcode::LoadYZeroX(_)
            | Opcode::StoreAZeroPage(_)
            | Opcode::StoreAZeroPageX(_)
            | Opcode::StoreAIndirectX(_)
            | Opcode::StoreAIndirectY(_)
            | Opcode::StoreXZeroPage(_)
            | Opcode::StoreXZeroPageY(_)
            | Opcode::StoreYZeroPage(_)
            | Opcode::StoreYZeroPageX(_)
            | Opcode::AddImmediate(_)
            | Opcode::AddCarryZero(_)
            | Opcode::SubCarryImmediate(_)
            | Opcode::AndImm(_)
            | Opcode::AndZero(_)
            | Opcode::AndZeroX(_)
            | Opcode::AndIndX(_)
            | Opcode::AndIndY(_)
            | Opcode::OrZero(_)
            | Opcode::XorImm(_)
            | Opcode::XorZero(_)
            | Opcode::LShiftZero(_)
            | Opcode::CompareImm(_)
            | Opcode::CompareXImm(_)
            | Opcode::CompareXZero(_)
            | Opcode::CompareYImm(_)
            | Opcode::BitTestZero(_)
            | Opcode::IncMemZero(_)
            | Opcode::DecMemZero(_)
            | Opcode::BranchCarryClear(_)
            | Opcode::BranchCarrySet(_)
            | Opcode::BranchEqual(_)
            | Opcode::BranchNotEqual(_)
            | Opcode::BranchMinus(_)
            | Opcode::BranchPositive(_)
            | Opcode::BranchOverflowClear(_) => 1,
            Opcode::LoadAAbsolute(_)
            | Opcode::LoadAAbsoluteX(_)
            | Opcode::LoadAAbsoluteY(_)
            | Opcode::LoadYAbsoluteX(_)
            | Opcode::StoreAAbsolute(_)
            | Opcode::StoreAAbsoluteX(_)
            | Opcode::StoreAAbsoluteY(_)
            | Opcode::StoreXAbsolute(_)
            | Opcode::StoreYAbsolute(_)
            | Opcode::AndAbs(_)
            | Opcode::AndAbsX(_)
            | Opcode::AndAbsY(_)
            | Opcode::LogRShiftAbs(_)
            | Opcode::BitTestAbs(_)
            | Opcode::JumpAbs(_)
            | Opcode::JumpInd(_)
            | Opcode::JumpSubroutine(_) => 2,
            _ => 0,
        }
    }

    /// The operand as a word; 0 where there is none.
    pub open spec fn operand(self) -> Word {
        match self {
            Opcode::LoadAImmediate(value)
            | Opcode::LoadAZeroPage(value)
            | Opcode::LoadAZeroPageX(value)
            | Opcode::LoadAIndY(value)
            | Opcode::LoadXImmediate(value)
            | Opcode::LoadXZero(value)
            | Opcode::LoadYImmediate(value)
            | Opcode::LoadYZero(value)
            | Opcode::LoadYZeroX(value)
            | Opcode::StoreAZeroPage(value)
            | Opcode::StoreAZeroPageX(value)
            | Opcode::StoreAIndirectX(value)
            | Opcode::StoreAIndirectY(value)
            | Opcode::StoreXZeroPage(value)
            | Opcode::StoreXZeroPageY(value)
            | Opcode::StoreYZeroPage(value)
            | Opcode::StoreYZeroPageX(value)
            | Opcode::AddImmediate(value)
            | Opcode::AddCarryZero(value)
            | Opcode::SubCarryImmediate(value)
            | Opcode::AndImm(value)
            | Opcode::AndZero(value)
            | Opcode::AndZeroX(value)
            | Opcode::AndIndX(value)
            | Opcode::AndIndY(value)
            | Opcode::OrZero(value)
            | Opcode::XorImm(value)
            | Opcode::XorZero(value)
            | Opcode::LShiftZero(value)
            | Opcode::CompareImm(value)
            | Opcode::CompareXImm(value)
            | Opcode::CompareXZero(value)
            | Opcode::CompareYImm(value)
            | Opcode::BitTestZero(value)
            | Opcode::IncMemZero(value)
            | Opcode::DecMemZero(value)
            | Opcode::BranchCarryClear(value)
            | Opcode::BranchCarrySet(value)
            | Opcode::BranchEqual(value)
            | Opcode::BranchNotEqual(value)
            | Opcode::BranchMinus(value)
            | Opcode::BranchPositive(value)
            | Opcode::BranchOverflowClear(value) => value as Word,
            Opcode::LoadAAbsolute(word)
            | Opcode::LoadAAbsoluteX(word)
            | Opcode::LoadAAbsoluteY(word)
            | Opcode::LoadYAbsoluteX(word)
            | Opcode::StoreAAbsolute(word)
            | Opcode::StoreAAbsoluteX(word)
            | Opcode::StoreAAbsoluteY(word)
            | Opcode::StoreXAbsolute(word)
            | Opcode::StoreYAbsolute(word)
            | Opcode::AndAbs(word)
            | Opcode::AndAbsX(word)
            | Opcode::AndAbsY(word)
            | Opcode::LogRShiftAbs(word)
            | Opcode::BitTestAbs(word)
            | Opcode::JumpAbs(word)
            | Opcode::JumpInd(word)
            | Opcode::JumpSubroutine(word) => word,
            _ => 0,
        }
    }

    /// The byte that encodes the instruction.
    pub fn to_byte(&self) -> (code: Byte)
        ensures
            code == self.code(),
    {
        match self {
            Opcode::LoadAImmediate(_) => 0xa9,
            Opcode::LoadAZeroPage(_) => 0xa5,
            Opcode::LoadAZeroPageX(_) => 0xb5,
            Opcode::LoadAAbsolute(_) => 0xad,
            Opcode::LoadAAbsoluteX(_) => 0xbd,
            Opcode::LoadAAbsoluteY(_) => 0xb9,
            Opcode::LoadAIndY(_) => 0xb1,
            Opcode::LoadXImmediate(_) => 0xa2,
            Opcode::LoadXZero(_) => 0xa6,
            Opcode::LoadYImmediate(_) => 0xa0,
            Opcode::LoadYZero(_) => 0xa4,
            Opcode::LoadYZeroX(_) => 0xb4,
            Opcode::LoadYAbsoluteX(_) => 0xbc,
            Opcode::StoreAZeroPage(_) => 0x85,
            Opcode::StoreAZeroPageX(_) => 0x95,
            Opcode::StoreAAbsolute(_) => 0x8d,
            Opcode::StoreAAbsoluteX(_) => 0x9d,
            Opcode::StoreAAbsoluteY(_) => 0x99,
            Opcode::StoreAIndirectX(_) => 0x81,
            Opcode::StoreAIndirectY(_) => 0x91,
            Opcode::StoreXZeroPage(_) => 0x86,
            Opcode::StoreXZeroPageY(_) => 0x96,
            Opcode::StoreXAbsolute(_) => 0x8e,
            Opcode::StoreYZeroPage(_) => 0x84,
            Opcode::StoreYZeroPageX(_) => 0x94,
            Opcode::StoreYAbsolute(_) => 0x8c,
            Opcode::MoveAY => 0xa8,
            Opcode::MoveAX => 0xaa,
            Opcode::MoveSX => 0xba,
            Opcode::MoveYA => 0x98,
            Opcode::MoveXA => 0x8a,
            Opcode::MoveXS => 0x9a,
            Opcode::AddImmediate(_) => 0x69,
            Opcode::AddCarryZero(_) => 0x65,
            Opcode::SubCarryImmediate(_) => 0xe9,
            Opcode::AndImm(_) => 0x29,
            Opcode::AndZero(_) => 0x25,
            Opcode::AndZeroX(_) => 0x35,
            Opcode::AndAbs(_) => 0x2d,
            Opcode::AndAbsX(_) => 0x3d,
            Opcode::AndAbsY(_) => 0x39,
            Opcode::AndIndX(_) => 0x21,
            Opcode::AndIndY(_) => 0x31,
            Opcode::OrZero(_) => 0x05,
            Opcode::XorImm(_) => 0x49,
            Opcode::XorZero(_) => 0x45,
            Opcode::LShiftAcc => 0x0a,
            Opcode::LShiftZero(_) => 0x06,
            Opcode::LogRShiftAcc => 0x4a,
            Opcode::LogRShiftAbs(_) => 0x4e,
            Opcode::RotateLAcc => 0x2a,
            Opcode::RotateRAcc => 0x6a,
            Opcode::CompareImm(_) => 0xc9,
            Opcode::CompareXImm(_) => 0xe0,
            Opcode::CompareXZero(_) => 0xe4,
            Opcode::CompareYImm(_) => 0xc0,
            Opcode::BitTestZero(_) => 0x24,
            Opcode::BitTestAbs(_) => 0x2c,
            Opcode::IncX => 0xe8,
            Opcode::DecX => 0xca,
            Opcode::IncY => 0xc8,
            Opcode::DecY => 0x88,
            Opcode::IncMemZero(_) => 0xe6,
            Opcode::DecMemZero(_) => 0xc6,
            Opcode::JumpAbs(_) => 0x4c,
            Opcode::JumpInd(_) => 0x6c,
            Opcode::JumpSubroutine(_) => 0x20,
            Opcode::RetSubroutine => 0x60,
            Opcode::BranchCarryClear(_) => 0x90,
            Opcode::BranchCarrySet(_) => 0xb0,
            Opcode::BranchEqual(_) => 0xf0,
            Opcode::BranchNotEqual(_) => 0xd0,
            Opcode::BranchMinus(_) => 0x30,
            Opcode::BranchPositive(_) => 0x10,
            Opcode::BranchOverflowClear(_) => 0x50,
            Opcode::PushAcc => 0x48,
            Opcode::PullAcc => 0x68,
            Opcode::SetCarry => 0x38,
            Opcode::ClearCarry => 0x18,
            Opcode::InterruptDisable => 0x78,
            Opcode::SetDecimalMode => 0xf8,
            Opcode::ClearDecimalMode => 0xd8,
            Opcode::NoOp => 0xea,
            Opcode::Break => 0x00,
        }
    }

    /// The number of operand bytes that follow an encoding byte.
    pub fn operand_length(code: Byte) -> (len: Option<Word>)
        ensures
            len == operand_len_of(code),
    {
        match code {
            0x00 | 0x0a | 0x18 | 0x2a | 0x38 | 0x48 | 0x4a | 0x60 | 0x68 | 0x6a | 0x78 | 0x88
            | 0x8a | 0x98 | 0x9a | 0xa8 | 0xaa | 0xba | 0xc8 | 0xca | 0xd8 | 0xe8 | 0xea
            | 0xf8 => Some(0),
            0x05 | 0x06 | 0x10 | 0x21 | 0x24 | 0x25 | 0x29 | 0x30 | 0x31 | 0x35 | 0x45 | 0x49
            | 0x50 | 0x65 | 0x69 | 0x81 | 0x84 | 0x85 | 0x86 | 0x90 | 0x91 | 0x94 | 0x95
            | 0x96 | 0xa0 | 0xa2 | 0xa4 | 0xa5 | 0xa6 | 0xa9 | 0xb0 | 0xb1 | 0xb4 | 0xb5
            | 0xc0 | 0xc6 | 0xc9 | 0xd0 | 0xe0 | 0xe4 | 0xe6 | 0xe9 | 0xf0 => Some(1),
            0x20 | 0x2c | 0x2d | 0x39 | 0x3d | 0x4c | 0x4e | 0x6c | 0x8c | 0x8d | 0x8e | 0x99
            | 0x9d | 0xad | 0xb9 | 0xbc | 0xbd => Some(2),
            _ => None,
        }
    }

    /// Looks an encoding byte up in the opcode table and gives the
    /// instruction its operand.
    pub fn from_parts(code: Byte, operand: Word) -> (inst: Option<Opcode>)
        ensures
            inst == assemble(code, operand),
    {
        match code {
            0x00 => Some(Opcode::Break),
            0x05 => Some(Opcode::OrZero(#[verifier::truncate] (operand as Byte))),
            0x06 => Some(Opcode::LShiftZero(#[verifier::truncate] (operand as Byte))),
            0x0a => Some(Opcode::LShiftAcc),
            0x10 => Some(Opcode::BranchPositive(#[verifier::truncate] (operand as Byte))),
            0x18 => Some(Opcode::ClearCarry),
            0x20 => Some(Opcode::JumpSubroutine(operand)),
            0x21 => Some(Opcode::AndIndX(#[verifier::truncate] (operand as Byte))),
            0x24 => Some(Opcode::BitTestZero(#[verifier::truncate] (operand as Byte))),
            0x25 => Some(Opcode::AndZero(#[verifier::truncate] (operand as Byte))),
            0x29 => Some(Opcode::AndImm(#[verifier::truncate] (operand as Byte))),
            0x2a => Some(Opcode::RotateLAcc),
            0x2c => Some(Opcode::BitTestAbs(operand)),
            0x2d => Some(Opcode::AndAbs(operand)),
            0x30 => Some(Opcode::BranchMinus(#[verifier::truncate] (operand as Byte))),
            0x31 => Some(Opcode::AndIndY(#[verifier::truncate] (operand as Byte))),
            0x35 => Some(Opcode::AndZeroX(#[verifier::truncate] (operand as Byte))),
            0x38 => Some(Opcode::SetCarry),
            0x39 => Some(Opcode::AndAbsY(operand)),
            0x3d => Some(Opcode::AndAbsX(operand)),
            0x45 => Some(Opcode::XorZero(#[verifier::truncate] (operand as Byte))),
            0x48 => Some(Opcode::PushAcc),
            0x49 => Some(Opcode::XorImm(#[verifier::truncate] (operand as Byte))),
            0x4a => Some(Opcode::LogRShiftAcc),
            0x4c => Some(Opcode::JumpAbs(operand)),
            0x4e => Some(Opcode::LogRShiftAbs(operand)),
            0x50 => Some(Opcode::BranchOverflowClear(#[verifier::truncate] (operand as Byte))),
            0x60 => Some(Opcode::RetSubroutine),
            0x65 => Some(Opcode::AddCarryZero(#[verifier::truncate] (operand as Byte))),
            0x68 => Some(Opcode::PullAcc),
            0x69 => Some(Opcode::AddImmediate(#[verifier::truncate] (operand as Byte))),
            0x6a => Some(Opcode::RotateRAcc),
            0x6c => Some(Opcode::JumpInd(operand)),
            0x78 => Some(Opcode::InterruptDisable),
            0x81 => Some(Opcode::StoreAIndirectX(#[verifier::truncate] (operand as Byte))),
            0x84 => Some(Opcode::StoreYZeroPage(#[verifier::truncate] (operand as Byte))),
            0x85 => Some(Opcode::StoreAZeroPage(#[verifier::truncate] (operand as Byte))),
            0x86 => Some(Opcode::StoreXZeroPage(#[verifier::truncate] (operand as Byte))),
            0x88 => Some(Opcode::DecY),
            0x8a => Some(Opcode::MoveXA),
            0x8c => Some(Opcode::StoreYAbsolute(operand)),
            0x8d => Some(Opcode::StoreAAbsolute(operand)),
            0x8e => Some(Opcode::StoreXAbsolute(operand)),
            0x90 => Some(Opcode::BranchCarryClear(#[verifier::truncate] (operand as Byte))),
            0x91 => Some(Opcode::StoreAIndirectY(#[verifier::truncate] (operand as Byte))),
            0x94 => Some(Opcode::StoreYZeroPageX(#[verifier::truncate] (operand as Byte))),
            0x95 => Some(Opcode::StoreAZeroPageX(#[verifier::truncate] (operand as Byte))),
            0x96 => Some(Opcode::StoreXZeroPageY(#[verifier::truncate] (operand as Byte))),
            0x98 => Some(Opcode::MoveYA),
            0x99 => Some(Opcode::StoreAAbsoluteY(operand)),
            0x9a => Some(Opcode::MoveXS),
            0x9d => Some(Opcode::StoreAAbsoluteX(operand)),
            0xa0 => Some(Opcode::LoadYImmediate(#[verifier::truncate] (operand as Byte))),
            0xa2 => Some(Opcode::LoadXImmediate(#[verifier::truncate] (operand as Byte))),
            0xa4 => Some(Opcode::LoadYZero(#[verifier::truncate] (operand as Byte))),
            0xa5 => Some(Opcode::LoadAZeroPage(#[verifier::truncate] (operand as Byte))),
            0xa6 => Some(Opcode::LoadXZero(#[verifier::truncate] (operand as Byte))),
            0xa8 => Some(Opcode::MoveAY),
            0xa9 => Some(Opcode::LoadAImmediate(#[verifier::truncate] (operand as Byte))),
            0xaa => Some(Opcode::MoveAX),
            0xad => Some(Opcode::LoadAAbsolute(operand)),
            0xb0 => Some(Opcode::BranchCarrySet(#[verifier::truncate] (operand as Byte))),
            0xb1 => Some(Opcode::LoadAIndY(#[verifier::truncate] (operand as Byte))),
            0xb4 => Some(Opcode::LoadYZeroX(#[verifier::truncate] (operand as Byte))),
            0xb5 => Some(Opcode::LoadAZeroPageX(#[verifier::truncate] (operand as Byte))),
            0xb9 => Some(Opcode::LoadAAbsoluteY(operand)),
            0xba => Some(Opcode::MoveSX),
            0xbc => Some(Opcode::LoadYAbsoluteX(operand)),
            0xbd => Some(Opcode::LoadAAbsoluteX(operand)),
            0xc0 => Some(Opcode::CompareYImm(#[verifier::truncate] (operand as Byte))),
            0xc6 => Some(Opcode::DecMemZero(#[verifier::truncate] (operand as Byte))),
            0xc8 => Some(Opcode::IncY),
            0xc9 => Some(Opcode::CompareImm(#[verifier::truncate] (operand as Byte))),
            0xca => Some(Opcode::DecX),
            0xd0 => Some(Opcode::BranchNotEqual(#[verifier::truncate] (operand as Byte))),
            0xd8 => Some(Opcode::ClearDecimalMode),
            0xe0 => Some(Opcode::CompareXImm(#[verifier::truncate] (operand as Byte))),
            0xe4 => Some(Opcode::CompareXZero(#[verifier::truncate] (operand as Byte))),
            0xe6 => Some(Opcode::IncMemZero(#[verifier::truncate] (operand as Byte))),
            0xe8 => Some(Opcode::IncX),
            0xe9 => Some(Opcode::SubCarryImmediate(#[verifier::truncate] (operand as Byte))),
            0xea => Some(Opcode::NoOp),
            0xf0 => Some(Opcode::BranchEqual(#[verifier::truncate] (operand as Byte))),
            0xf8 => Some(Opcode::SetDecimalMode),
            _ => None,
        }
    }
}

impl OpcodeDecoder for Opcode {
    /// Reads the instruction at the program counter and moves the program
    /// counter past it. Where the byte there encodes no instruction, the
    /// program counter is left behind that byte.
    fn decode_opcode<H: ClockHandler, B: MemoryBus>(cpu: &mut Cpu<H>, memory: &mut B) -> (decoded:
        Result<Opcode, EmulatorError>)
        ensures
            match decode(*old(memory), old(cpu).pc) {
                Ok((inst, next)) => decoded == Ok::<Opcode, EmulatorError>(inst) && final(cpu).pc
                    == next,
                Err(error) => decoded == Err::<Opcode, EmulatorError>(error) && final(cpu).pc
                    == old(cpu).pc.wrapping_add(1),
            },
    {
        let at: Word = cpu.pc;
        let code: Byte = cpu.fetch_byte(memory);
        let operand: Word = match Opcode::operand_length(code) {
            None => {
                return Err(EmulatorError::UnknownOpcode(code, at));
            },
            Some(0) => 0,
            Some(1) => cpu.fetch_byte(memory) as Word,
            Some(_) => cpu.fetch_word(memory),
        };
        match Opcode::from_parts(code, operand) {
            Some(inst) => Ok(inst),
            None => Err(EmulatorError::UnknownOpcode(code, at)),
        }
    }
}

} // verus!
