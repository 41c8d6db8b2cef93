//! What holds of every instruction and of every machine.

use vstd::prelude::*;
use crate::bit_utils::{bit_set_byte, pages_differ};
use crate::cpu::code::{assemble, decode, operand_at, operand_len_of, Opcode};
use crate::cpu::semantics::{
    bus_after,
    cycle_cost,
    flag_bit,
    indexed,
    operand_value,
    pointer_at,
    pull_byte,
    push_byte,
    registers_after,
    sign_bit,
    stack_address,
    with_page_penalty,
    Machine,
    Registers,
};
use crate::cpu::ClockHandler;
use crate::data_types::{Byte, Word};
use crate::error::EmulatorError;
use crate::memory_bus::{next_in_page, region_of, word_of, AtariMemoryBus, BusRegion, MemoryBus};
use crate::memory_mock::MemoryMock;

verus! {

/// The sign bit of a byte is its bit 7: the byte shifted right by seven
/// places, and set exactly in the bytes from 0x80 up.
pub proof fn lemma_sign_bit(value: Byte)
    ensures
        sign_bit(value) <==> value >> 7 == 1,
        sign_bit(value) <==> value >= 0x80,
{
    assert((value & (1u8 << 7u8) != 0) <==> (value >> 7u8 == 1)) by (bit_vector);
    assert((value & (1u8 << 7u8) != 0) <==> (value >= 0x80)) by (bit_vector);
}

/// The result from which an instruction derives Z and N, for the
/// instructions that set both: the value loaded or transferred into a
/// register, the result of an arithmetic, logic, shift or rotate operation,
/// the difference that a comparison forms, the conjunction that a bit test
/// forms, the value that an increment or decrement leaves, the byte that is
/// pulled into the accumulator.
pub open spec fn zn_result<B: MemoryBus>(regs: Registers, bus: B, inst: Opcode) -> Option<Byte> {
    let memory = operand_value(regs, bus, inst);
    match inst {
        Opcode::LoadAImmediate(_)
        | Opcode::LoadAZeroPage(_)
        | Opcode::LoadAZeroPageX(_)
        | Opcode::LoadAAbsolute(_)
        | Opcode::LoadAAbsoluteX(_)
        | Opcode::LoadAAbsoluteY(_)
        | Opcode::LoadAIndY(_)
        | Opcode::LoadXImmediate(_)
        | Opcode::LoadXZero(_)
        | Opcode::LoadYImmediate(_)
        | Opcode::LoadYZero(_)
        | Opcode::LoadYZeroX(_)
        | Opcode::LoadYAbsoluteX(_) => Some(memory),
        Opcode::MoveAY | Opcode::MoveAX => Some(regs.ra),
        Opcode::MoveSX => Some(regs.sp),
        Opcode::MoveYA => Some(regs.ry),
        Opcode::MoveXA => Some(regs.rx),
        Opcode::AddImmediate(_) | Opcode::AddCarryZero(_) => Some(
            regs.ra.wrapping_add(memory).wrapping_add(flag_bit(regs.carry)),
        ),
        Opcode::SubCarryImmediate(_) => Some(
            regs.ra.wrapping_add(flag_bit(regs.carry)).wrapping_sub(1).wrapping_sub(memory),
        ),
        Opcode::AndImm(_)
        | Opcode::AndZero(_)
        | Opcode::AndZeroX(_)
        | Opcode::AndAbs(_)
        | Opcode::AndAbsX(_)
        | Opcode::AndAbsY(_)
        | Opcode::AndIndX(_)
        | Opcode::AndIndY(_)
        | Opcode::BitTestZero(_)
        | Opcode::BitTestAbs(_) => Some(memory & regs.ra),
        Opcode::OrZero(_) => Some(regs.ra | memory),
        Opcode::XorImm(_) | Opcode::XorZero(_) => Some(regs.ra ^ memory),
        Opcode::LShiftAcc => Some(regs.ra << 1),
        Opcode::LShiftZero(_) => Some(memory << 1),
        Opcode::LogRShiftAcc => Some(regs.ra >> 1),
        Opcode::LogRShiftAbs(_) => Some(memory >> 1),
        Opcode::RotateLAcc => Some(regs.ra << 1 | flag_bit(regs.carry)),
        Opcode::RotateRAcc => Some(regs.ra >> 1 | flag_bit(regs.carry) << 7),
        Opcode::CompareImm(_) => Some(regs.ra.wrapping_sub(memory)),
        Opcode::CompareXImm(_) | Opcode::CompareXZero(_) => Some(regs.rx.wrapping_sub(memory)),
        Opcode::CompareYImm(_) => Some(regs.ry.wrapping_sub(memory)),
        Opcode::IncX => Some(regs.rx.wrapping_add(1)),
        Opcode::DecX => Some(regs.rx.wrapping_sub(1)),
        Opcode::IncY => Some(regs.ry.wrapping_add(1)),
        Opcode::DecY => Some(regs.ry.wrapping_sub(1)),
        Opcode::IncMemZero(_) => Some(memory.wrapping_add(1)),
        Opcode::DecMemZero(_) => Some(memory.wrapping_sub(1)),
        Opcode::PullAcc => Some(pull_byte(bus, regs.sp)),
        _ => None,
    }
}

/// Flag derivation: after every instruction that sets Z and N, Z says that
/// the result is zero and N is the result shifted right by seven places.
pub proof fn lemma_flags_follow_result<B: MemoryBus>(regs: Registers, bus: B, inst: Opcode)
    requires
        zn_result(regs, bus, inst) is Some,
    ensures
        registers_after(regs, bus, inst).zero == (zn_result(regs, bus, inst)->Some_0 == 0),
        registers_after(regs, bus, inst).negative == (zn_result(regs, bus, inst)->Some_0 >> 7 == 1),
{
    lemma_sign_bit(zn_result(regs, bus, inst)->Some_0);
}

/// Z and N follow the final value of a register that is loaded: Z says
/// that the register holds zero, and N is its bit 7.
pub proof fn lemma_load_sets_flags(regs: Registers, value: Byte)
    ensures
        regs.load_a(value).zero == (regs.load_a(value).ra == 0),
        regs.load_a(value).negative == (regs.load_a(value).ra >> 7 == 1),
        regs.load_x(value).zero == (regs.load_x(value).rx == 0),
        regs.load_x(value).negative == (regs.load_x(value).rx >> 7 == 1),
        regs.load_y(value).zero == (regs.load_y(value).ry == 0),
        regs.load_y(value).negative == (regs.load_y(value).ry >> 7 == 1),
{
    lemma_sign_bit(value);
}

/// V changes only in the instructions that produce it: the bit tests, and
/// the additions and subtractions with carry.
pub proof fn lemma_overflow_kept<B: MemoryBus>(regs: Registers, bus: B, inst: Opcode)
    requires
        !(inst is BitTestZero || inst is BitTestAbs || inst is AddImmediate || inst is AddCarryZero
            || inst is SubCarryImmediate),
    ensures
        registers_after(regs, bus, inst).overflow == regs.overflow,
{
}

/// Cycle accounting: every instruction costs at least 2 and at most 7
/// cycles.
pub proof fn lemma_cycle_cost_bounds<B: MemoryBus>(regs: Registers, bus: B, inst: Opcode)
    ensures
        2 <= cycle_cost(regs, bus, inst) <= 7,
{
}

/// Cycle accounting: an executed instruction posts its cycle cost exactly
/// once. The counter advances by it, and so grows unless it wraps at its
/// maximum; every tick consumer is handed it; and so is the bus, after the
/// instruction has changed the memory.
pub proof fn lemma_execute_posts_cost<H: ClockHandler, B: MemoryBus>(
    machine: Machine<H, B>,
    inst: Opcode,
)
    ensures
        machine.execute(inst).cycles == machine.cycles.wrapping_add(
            cycle_cost(machine.regs, machine.bus, inst) as u128,
        ),
        machine.cycles + 7 <= u128::MAX ==> machine.execute(inst).cycles > machine.cycles,
        machine.execute(inst).sinks.len() == machine.sinks.len(),
        forall|i: int|
            0 <= i < machine.sinks.len() ==> #[trigger] machine.execute(inst).sinks[i]
                == machine.sinks[i].after_clock(cycle_cost(machine.regs, machine.bus, inst)),
        machine.execute(inst).bus == bus_after(machine.regs, machine.bus, inst).after_clock(
            cycle_cost(machine.regs, machine.bus, inst),
        ),
{
    lemma_cycle_cost_bounds(machine.regs, machine.bus, inst);
}

/// The page-cross predicate: an indexed read costs one cycle more than its
/// base cost exactly when the page of the base differs from the page of the
/// base plus the index, `(base & 0xFF00) != ((base + offset) & 0xFF00)`.
pub proof fn lemma_page_cross_penalty(cycles: u32, base: Word, offset: Byte)
    requires
        cycles < u32::MAX,
    ensures
        with_page_penalty(cycles, base, indexed(base, offset)) == cycles + 1 <==> (base & 0xFF00)
            != (base.wrapping_add(offset as Word) & 0xFF00),
        with_page_penalty(cycles, base, indexed(base, offset)) == cycles <==> (base & 0xFF00) == (
        base.wrapping_add(offset as Word) & 0xFF00),
{
}

/// The instructions that pay the page-cross penalty pay it on the address
/// that they index: the absolute base, or the pointer read from the zero
/// page.
pub proof fn lemma_indexed_read_cycles<B: MemoryBus>(regs: Registers, bus: B, inst: Opcode)
    ensures
        match inst {
            Opcode::LoadAAbsoluteX(base)
            | Opcode::LoadYAbsoluteX(base)
            | Opcode::AndAbsX(base) => cycle_cost(regs, bus, inst) == if pages_differ(
                base,
                indexed(base, regs.rx),
            ) {
                5u32
            } else {
                4u32
            },
            Opcode::LoadAAbsoluteY(base) | Opcode::AndAbsY(base) => cycle_cost(regs, bus, inst)
                == if pages_differ(base, indexed(base, regs.ry)) {
                5u32
            } else {
                4u32
            },
            Opcode::LoadAIndY(operand) | Opcode::AndIndY(operand) => cycle_cost(regs, bus, inst)
                == if pages_differ(
                pointer_at(bus, operand),
                indexed(pointer_at(bus, operand), regs.ry),
            ) {
                6u32
            } else {
                5u32
            },
            _ => true,
        },
{
}

/// The address that follows another within its page keeps the page and
/// moves the low byte on by one, 0xFF being followed by 0x00.
pub proof fn lemma_next_in_page(addr: Word)
    ensures
        next_in_page(addr) / 256 == addr / 256,
        next_in_page(addr) % 256 == (addr % 256 + 1) % 256,
{
    let low: Byte = (#[verifier::truncate] (addr as Byte)).wrapping_add(1);
    let next: Word = (addr & 0xFF00) | low as Word;
    assert(next / 256 == addr / 256 && next % 256 == (addr % 256 + 1) % 256) by (bit_vector)
        requires
            next == (addr & 0xFF00) | low as Word,
            low == (if (addr as u8) + 1 > 0xFF {
                ((addr as u8) + 1 - 0x100) as u8
            } else {
                ((addr as u8) + 1) as u8
            }),
    ;
}

/// The indirect jump does not carry into the page: a pointer in the last
/// cell of a page has its high byte in the first cell of the same page, not
/// in the first cell of the next.
pub proof fn lemma_jump_indirect_wraps_in_page<B: MemoryBus>(
    regs: Registers,
    bus: B,
    pointer: Word,
)
    requires
        pointer % 256 == 0xFF,
    ensures
        registers_after(regs, bus, Opcode::JumpInd(pointer)).pc == word_of(
            bus.peek(pointer),
            bus.peek((pointer - 0xFF) as Word),
        ),
{
    lemma_next_in_page(pointer);
}

/// Bit 5 of the packed flag byte is always one, and every other bit is the
/// flag that it stands for.
pub proof fn lemma_status_bits(regs: Registers)
    ensures
        bit_set_byte(regs.status(), 5),
        bit_set_byte(regs.status(), 0) == regs.carry,
        bit_set_byte(regs.status(), 1) == regs.zero,
        bit_set_byte(regs.status(), 2) == regs.interrupt_disable,
        bit_set_byte(regs.status(), 3) == regs.decimal_mode,
        bit_set_byte(regs.status(), 4) == regs.break_command,
        bit_set_byte(regs.status(), 6) == regs.overflow,
        bit_set_byte(regs.status(), 7) == regs.negative,
{
    let c = flag_bit(regs.carry);
    let z = flag_bit(regs.zero);
    let i = flag_bit(regs.interrupt_disable);
    let d = flag_bit(regs.decimal_mode);
    let b = flag_bit(regs.break_command);
    let v = flag_bit(regs.overflow);
    let n = flag_bit(regs.negative);
    let p = c | z << 1 | i << 2 | d << 3 | b << 4 | 1u8 << 5 | v << 6 | n << 7;
    assert(p & (1u8 << 5u8) != 0 && ((p & (1u8 << 0u8) != 0) == (c == 1)) && ((p & (1u8 << 1u8)
        != 0) == (z == 1)) && ((p & (1u8 << 2u8) != 0) == (i == 1)) && ((p & (1u8 << 3u8) != 0)
        == (d == 1)) && ((p & (1u8 << 4u8) != 0) == (b == 1)) && ((p & (1u8 << 6u8) != 0) == (v
        == 1)) && ((p & (1u8 << 7u8) != 0) == (n == 1))) by (bit_vector)
        requires
            c <= 1,
            z <= 1,
            i <= 1,
            d <= 1,
            b <= 1,
            v <= 1,
            n <= 1,
            p == c | z << 1 | i << 2 | d << 3 | b << 4 | 1u8 << 5 | v << 6 | n << 7,
    ;
}

/// Packing the flags and unpacking them again gives the flags back.
pub proof fn lemma_status_round_trip(regs: Registers)
    ensures
        regs.with_status(regs.status()) == regs,
{
    lemma_status_bits(regs);
}

/// The encoding byte identifies the instruction: the opcode table gives
/// every instruction back from its encoding byte and its operand, and what
/// the table gives for a byte is encoded by that byte.
pub proof fn lemma_code_identifies_instruction(inst: Opcode)
    ensures
        assemble(inst.code(), inst.operand()) == Some(inst),
        operand_len_of(inst.code()) == Some(inst.operand_len()),
{
}

/// Decoding gives back what was encoded: where memory holds the encoding
/// byte of an instruction at an address, and its operand behind it, the
/// decoder yields that instruction and the address behind the operand.
pub proof fn lemma_decode_encoded<B: MemoryBus>(bus: B, pc: Word, inst: Opcode)
    requires
        bus.peek(pc) == inst.code(),
        operand_at(bus, pc, inst.operand_len()) == inst.operand(),
    ensures
        decode(bus, pc) == Ok::<(Opcode, Word), EmulatorError>(
            (inst, pc.wrapping_add((1 + inst.operand_len()) as Word)),
        ),
{
    lemma_code_identifies_instruction(inst);
}

/// What the opcode table gives for a byte is encoded by that byte, and takes
/// as many operand bytes as the table of lengths says.
pub proof fn lemma_assembled_code(code: Byte, operand: Word)
    ensures
        assemble(code, operand) is Some <==> operand_len_of(code) is Some,
        assemble(code, operand) is Some ==> assemble(code, operand)->Some_0.code() == code
            && operand_len_of(code) == Some(assemble(code, operand)->Some_0.operand_len()),
{
}

/// The stack pointer after `count` pushes: it goes down by one for each,
/// wrapping from 0x00 to 0xFF.
pub open spec fn sp_below(sp: Byte, count: int) -> Byte {
    ((sp - count) % 0x100) as Byte
}

/// The memory and the stack pointer after a sequence of bytes has been
/// pushed, the first byte first.
pub open spec fn push_all<B: MemoryBus>(bus: B, sp: Byte, bytes: Seq<Byte>) -> (B, Byte)
    decreases bytes.len(),
{
    if bytes.len() == 0 {
        (bus, sp)
    } else {
        push_all(push_byte(bus, sp, bytes[0]), sp.wrapping_sub(1), bytes.drop_first())
    }
}

/// The bytes that `count` pulls yield, the first pull first, and the stack
/// pointer after them.
pub open spec fn pull_all<B: MemoryBus>(bus: B, sp: Byte, count: nat) -> (Seq<Byte>, Byte)
    decreases count,
{
    if count == 0 {
        (Seq::empty(), sp)
    } else {
        let rest = pull_all(bus, sp.wrapping_add(1), (count - 1) as nat);
        (seq![pull_byte(bus, sp)] + rest.0, rest.1)
    }
}

/// The cells of the stack page that `count` pushes write, starting with the
/// stack pointer at `sp`.
pub open spec fn pushed_cells(sp: Byte, count: int) -> Set<Word> {
    Set::new(|addr: Word| exists|i: int| 0 <= i < count && addr == stack_address(sp_below(sp, i)))
}

/// The cells behave as memory on every bus of the kind: a cell holds what
/// was last written to it, and a write to one of them changes none of the
/// others.
pub open spec fn cells_are_memory<B: MemoryBus>(cells: Set<Word>) -> bool {
    forall|bus: B, written: Word, data: Byte, read: Word|
        bus.inv() && cells.contains(written) && cells.contains(read) ==> #[trigger] bus.poke(
            written,
            data,
        ).peek(read) == if read == written {
            data
        } else {
            bus.peek(read)
        }
}

proof fn lemma_sp_below_twice(sp: Byte, first: int, second: int)
    ensures
        sp_below(sp_below(sp, first), second) == sp_below(sp, first + second),
{
}

proof fn lemma_pushed_cells_below(sp: Byte, count: int, addr: Word)
    requires
        0 < count <= 0x100,
        pushed_cells(sp.wrapping_sub(1), count - 1).contains(addr),
    ensures
        pushed_cells(sp, count).contains(addr),
        addr != stack_address(sp),
{
    let below = sp.wrapping_sub(1);
    let i = choose|i: int| 0 <= i < count - 1 && addr == stack_address(sp_below(below, i));
    assert(sp_below(below, i) == sp_below(sp, i + 1));
    assert(0 <= i + 1 < count && addr == stack_address(sp_below(sp, i + 1)));
}

proof fn lemma_pushed_cells_first(sp: Byte, count: int)
    requires
        0 < count,
    ensures
        pushed_cells(sp, count).contains(stack_address(sp)),
{
    assert(0 <= 0 < count && stack_address(sp) == stack_address(sp_below(sp, 0)));
}

proof fn lemma_push_all_keeps<B: MemoryBus>(
    bus: B,
    sp: Byte,
    bytes: Seq<Byte>,
    cells: Set<Word>,
    addr: Word,
)
    requires
        bus.inv(),
        bytes.len() <= 0x100,
        cells_are_memory::<B>(cells),
        pushed_cells(sp, bytes.len() as int).subset_of(cells),
        cells.contains(addr),
        !pushed_cells(sp, bytes.len() as int).contains(addr),
    ensures
        push_all(bus, sp, bytes).0.inv(),
        push_all(bus, sp, bytes).0.peek(addr) == bus.peek(addr),
    decreases bytes.len(),
{
    if bytes.len() > 0 {
        let count = bytes.len() as int;
        let first = push_byte(bus, sp, bytes[0]);
        let below = sp.wrapping_sub(1);
        bus.lemma_poke_inv(stack_address(sp), bytes[0]);
        lemma_pushed_cells_first(sp, count);
        assert forall|cell: Word| pushed_cells(below, count - 1).contains(cell) implies cells.contains(
            cell,
        ) by {
            lemma_pushed_cells_below(sp, count, cell);
        };
        if pushed_cells(below, count - 1).contains(addr) {
            lemma_pushed_cells_below(sp, count, addr);
        }
        lemma_push_all_keeps(first, below, bytes.drop_first(), cells, addr);
        assert(first.peek(addr) == bus.peek(addr));
    }
}

proof fn lemma_push_all_holds<B: MemoryBus>(
    bus: B,
    sp: Byte,
    bytes: Seq<Byte>,
    cells: Set<Word>,
    i: int,
)
    requires
        bus.inv(),
        bytes.len() <= 0x100,
        cells_are_memory::<B>(cells),
        pushed_cells(sp, bytes.len() as int).subset_of(cells),
        0 <= i < bytes.len(),
    ensures
        push_all(bus, sp, bytes).0.peek(stack_address(sp_below(sp, i))) == bytes[i],
        push_all(bus, sp, bytes).1 == sp_below(sp, bytes.len() as int),
    decreases bytes.len(),
{
    let count = bytes.len() as int;
    let first = push_byte(bus, sp, bytes[0]);
    let below = sp.wrapping_sub(1);
    let rest = bytes.drop_first();
    bus.lemma_poke_inv(stack_address(sp), bytes[0]);
    lemma_pushed_cells_first(sp, count);
    assert forall|cell: Word| pushed_cells(below, count - 1).contains(cell) implies cells.contains(
        cell,
    ) by {
        lemma_pushed_cells_below(sp, count, cell);
    };
    lemma_push_all_end(first, below, rest);
    assert(sp_below(below, count - 1) == sp_below(sp, count));
    if i == 0 {
        assert(sp_below(sp, 0) == sp);
        if pushed_cells(below, count - 1).contains(stack_address(sp)) {
            lemma_pushed_cells_below(sp, count, stack_address(sp));
        }
        lemma_push_all_keeps(first, below, rest, cells, stack_address(sp));
        assert(first.peek(stack_address(sp)) == bytes[0]);
    } else {
        lemma_push_all_holds(first, below, rest, cells, i - 1);
        assert(sp_below(below, i - 1) == sp_below(sp, i));
        assert(rest[i - 1] == bytes[i]);
    }
}

proof fn lemma_push_all_end<B: MemoryBus>(bus: B, sp: Byte, bytes: Seq<Byte>)
    ensures
        push_all(bus, sp, bytes).1 == sp_below(sp, bytes.len() as int),
    decreases bytes.len(),
{
    if bytes.len() > 0 {
        let below = sp.wrapping_sub(1);
        lemma_push_all_end(push_byte(bus, sp, bytes[0]), below, bytes.drop_first());
        assert(sp_below(below, bytes.len() - 1) == sp_below(sp, bytes.len() as int));
    }
}

proof fn lemma_pull_all_at<B: MemoryBus>(bus: B, sp: Byte, count: nat, j: int)
    requires
        0 <= j < count,
    ensures
        pull_all(bus, sp, count).0.len() == count,
        pull_all(bus, sp, count).0[j] == bus.peek(stack_address(sp_below(sp, -(j + 1)))),
    decreases count,
{
    let above = sp.wrapping_add(1);
    lemma_pull_all_end(bus, above, (count - 1) as nat);
    assert(above == sp_below(sp, -1));
    if j > 0 {
        lemma_pull_all_at(bus, above, (count - 1) as nat, j - 1);
        assert(sp_below(above, -j) == sp_below(sp, -(j + 1)));
    }
}

proof fn lemma_pull_all_end<B: MemoryBus>(bus: B, sp: Byte, count: nat)
    ensures
        pull_all(bus, sp, count).0.len() == count,
        pull_all(bus, sp, count).1 == sp_below(sp, -(count as int)),
    decreases count,
{
    if count > 0 {
        let above = sp.wrapping_add(1);
        lemma_pull_all_end(bus, above, (count - 1) as nat);
        assert(sp_below(above, -(count - 1)) == sp_below(sp, -(count as int)));
    }
}

/// Stack discipline: where the cells that are written behave as memory,
/// pushing a sequence of at most 256 bytes and pulling as many again yields
/// the sequence in reverse, and leaves the stack pointer where it started.
pub proof fn lemma_stack_discipline<B: MemoryBus>(bus: B, sp: Byte, bytes: Seq<Byte>)
    requires
        bus.inv(),
        bytes.len() <= 0x100,
        cells_are_memory::<B>(pushed_cells(sp, bytes.len() as int)),
    ensures
        pull_all(push_all(bus, sp, bytes).0, push_all(bus, sp, bytes).1, bytes.len()).0
            == bytes.reverse(),
        pull_all(push_all(bus, sp, bytes).0, push_all(bus, sp, bytes).1, bytes.len()).1 == sp,
{
    let count = bytes.len() as int;
    let cells = pushed_cells(sp, count);
    let pushed = push_all(bus, sp, bytes);
    lemma_push_all_end(bus, sp, bytes);
    lemma_pull_all_end(pushed.0, pushed.1, bytes.len());
    let pulled = pull_all(pushed.0, pushed.1, bytes.len());
    lemma_sp_below_twice(sp, count, -count);
    assert(sp_below(sp, 0) == sp);
    assert forall|j: int| 0 <= j < count implies pulled.0[j] == bytes.reverse()[j] by {
        lemma_pull_all_at(pushed.0, pushed.1, bytes.len(), j);
        lemma_sp_below_twice(sp, count, -(j + 1));
        lemma_push_all_holds(bus, sp, bytes, cells, count - 1 - j);
    };
    assert(pulled.0 =~= bytes.reverse());
}

/// On the stand-in memory every cell behaves as memory, so that the stack
/// discipline holds for every stack pointer.
pub proof fn lemma_mock_cells_are_memory(cells: Set<Word>)
    ensures
        cells_are_memory::<MemoryMock>(cells),
{
    assert forall|bus: MemoryMock, written: Word, data: Byte, read: Word|
        bus.inv() && cells.contains(written) && cells.contains(read) implies #[trigger] bus.poke(
        written,
        data,
    ).peek(read) == if read == written {
        data
    } else {
        bus.peek(read)
    } by {
        bus.lemma_peek_poke(written, data, read);
    };
}

/// On the console's bus the upper half of the stack page, 0x0180 to 0x01FF,
/// is RAM and behaves as memory, so that the stack discipline holds as long
/// as the stack pointer stays at 0x80 or above. The lower half of the page
/// is decoded to the register files, which keep nothing.
pub proof fn lemma_console_stack_is_memory(cells: Set<Word>)
    requires
        forall|addr: Word| cells.contains(addr) ==> 0x180 <= addr <= 0x1FF,
    ensures
        cells_are_memory::<AtariMemoryBus>(cells),
{
    assert forall|bus: AtariMemoryBus, written: Word, data: Byte, read: Word|
        bus.inv() && cells.contains(written) && cells.contains(read) implies #[trigger] bus.poke(
        written,
        data,
    ).peek(read) == if read == written {
        data
    } else {
        bus.peek(read)
    } by {
        assert(0x180 <= written <= 0x1FF ==> written & (1u16 << 12u16) == 0 && written & (1u16
            << 7u16) != 0 && written & (1u16 << 9u16) == 0) by (bit_vector);
        assert(0x180 <= read <= 0x1FF ==> read & (1u16 << 12u16) == 0 && read & (1u16 << 7u16)
            != 0 && read & (1u16 << 9u16) == 0) by (bit_vector);
        assert(region_of(written) == BusRegion::Ram);
        assert(region_of(read) == BusRegion::Ram);
        bus.lemma_poke(written, data);
        bus.poke(written, data).lemma_peek(read);
        bus.lemma_peek(read);
    };
}

} // verus!
