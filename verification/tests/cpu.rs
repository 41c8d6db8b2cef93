use sixty_five::clock::ClockCounter;
use sixty_five::cpu::Cpu;
use sixty_five::data_types::{Byte, Word};
use sixty_five::memory_bus::MemoryBus;
use sixty_five::memory_mock::MemoryMock;

/// Runs the program at the reset vector up to its first BRK: the opcode
/// byte of the BRK is fetched, and the BRK is not executed.
fn start(cpu: &mut Cpu<ClockCounter>, bus: &mut MemoryMock) {
    cpu.start(bus, 0).unwrap();
    while bus.read_byte(cpu.pc) != 0x00 {
        cpu.run_cycle(bus).unwrap();
    }
    cpu.fetch_byte(bus);
}

fn clocks(cpu: &Cpu<ClockCounter>) -> u128 {
    cpu.clock_handlers[0].count
}

#[test]
fn lda_imm_clocks() {
    let mut memory_bus = MemoryMock::new();
    memory_bus.add_byte(0x0000, 0xa9);
    let mut cpu = Cpu::new();
    cpu.init();

    cpu.register_clock_handler(ClockCounter::new());

    start(&mut cpu, &mut memory_bus);

    assert_eq!(clocks(&cpu), 2);
}

#[test]
fn load_a_immediate() {
    let mut memory_bus = MemoryMock::new();
    memory_bus.add_byte(0x0000, 0xa9);
    memory_bus.add_byte(0x0001, 0x10);
    memory_bus.add_byte(0x0002, 0x00);
    let mut cpu = Cpu::<ClockCounter>::new();
    cpu.init();

    start(&mut cpu, &mut memory_bus);

    assert_eq!(cpu.ra, 0x10);
}

#[test]
fn load_a_imm_flags() {
    let mut memory_bus = MemoryMock::new();
    memory_bus.add_byte(0x0000, 0xa9);
    memory_bus.add_byte(0x0001, 0x10);
    memory_bus.add_byte(0x0002, 0x00);
    let mut cpu = Cpu::<ClockCounter>::new();
    cpu.init();

    start(&mut cpu, &mut memory_bus);

    assert!(!cpu.zero);
    assert!(!cpu.negative)
}

#[test]
fn load_a_imm_flags_zero() {
    let mut memory_bus = MemoryMock::new();
    memory_bus.add_byte(0x0000, 0xa9);
    memory_bus.add_byte(0x0001, 0x00);
    memory_bus.add_byte(0x0002, 0x00);
    let mut cpu = Cpu::<ClockCounter>::new();
    cpu.init();

    start(&mut cpu, &mut memory_bus);

    assert!(cpu.zero);
    assert!(!cpu.negative)
}

#[test]
fn lda_zero_clocks() {
    let mut memory_bus = MemoryMock::new();
    memory_bus.add_byte(0x0000, 0xa5);
    let mut cpu = Cpu::new();
    cpu.init();

    cpu.register_clock_handler(ClockCounter::new());

    start(&mut cpu, &mut memory_bus);

    assert_eq!(clocks(&cpu), 3);
}

#[test]
fn load_a_zero_page() {
    const DATA: Byte = 0xf1;
    const ADDR: Byte = 0xba;
    let mut memory_bus = MemoryMock::new();
    memory_bus.add_byte(0x0000, 0xa5);
    memory_bus.add_byte(0x0001, ADDR);
    memory_bus.add_byte(ADDR as Word, DATA);
    let mut cpu = Cpu::<ClockCounter>::new();
    cpu.init();

    start(&mut cpu, &mut memory_bus);

    assert_eq!(cpu.ra, DATA);
}

#[test]
fn lda_zero_x_clock() {
    let mut memory_bus = MemoryMock::new();
    memory_bus.add_byte(0x0000, 0xb5);
    let mut cpu = Cpu::new();
    cpu.init();

    cpu.register_clock_handler(ClockCounter::new());

    start(&mut cpu, &mut memory_bus);

    assert_eq!(clocks(&cpu), 4);
}

#[test]
fn load_a_zero_x() {
    const DATA: Byte = 0x12;
    const PART_A: Byte = 0x10;
    const PART_B: Byte = 0x01;
    const FINAL_ADDR: Byte = PART_A + PART_B;
    let mut memory_bus = MemoryMock::new();
    memory_bus.add_byte(0x0000, 0xb5);
    memory_bus.add_byte(0x0001, PART_A);
    memory_bus.add_byte(FINAL_ADDR as Word, DATA);
    let mut cpu = Cpu::<ClockCounter>::new();
    cpu.init();
    cpu.rx = PART_B;

    start(&mut cpu, &mut memory_bus);

    assert_eq!(cpu.ra, DATA);
}

#[test]
fn load_a_zero_x_overflow() {
    const DATA: Byte = 0xaf;
    const PART_A: Byte = 0xf0;
    const PART_B: Byte = 0x3f;
    const FINAL_ADDR: Byte = 0x2f;
    let mut memory_bus = MemoryMock::new();
    memory_bus.add_byte(0x0000, 0xb5);
    memory_bus.add_byte(0x0001, PART_A);
    memory_bus.add_byte(FINAL_ADDR as Word, DATA);
    let mut cpu = Cpu::<ClockCounter>::new();
    cpu.init();
    cpu.rx = PART_B;

    start(&mut cpu, &mut memory_bus);

    assert_eq!(cpu.ra, DATA);
}

#[test]
fn lda_abs_clock() {
    let mut memory_bus = MemoryMock::new();
    memory_bus.add_byte(0x0000, 0xad);
    let mut cpu = Cpu::new();
    cpu.init();

    cpu.register_clock_handler(ClockCounter::new());

    start(&mut cpu, &mut memory_bus);

    assert_eq!(clocks(&cpu), 4);
}

#[test]
fn load_a_absolute() {
    const DATA: Byte = 0x1f;
    const ADDR: Word = 0xface;
    let mut memory_bus = MemoryMock::new();
    memory_bus.add_byte(0x0000, 0xad);
    memory_bus.add_byte(0x0001, 0xce);
    memory_bus.add_byte(0x0002, 0xfa);
    memory_bus.add_byte(ADDR, DATA);
    let mut cpu = Cpu::<ClockCounter>::new();
    cpu.init();

    start(&mut cpu, &mut memory_bus);

    assert_eq!(cpu.ra, DATA);
}

#[test]
fn load_x_immediate() {
    let mut memory_bus = MemoryMock::new();
    memory_bus.add_byte(0x0000, 0xa2);
    memory_bus.add_byte(0x0001, 0x10);
    memory_bus.add_byte(0x0002, 0x00);
    let mut cpu = Cpu::<ClockCounter>::new();
    cpu.init();

    start(&mut cpu, &mut memory_bus);

    assert_eq!(cpu.rx, 0x10);
}

#[test]
fn load_x_imm_flags() {
    let mut memory_bus = MemoryMock::new();
    memory_bus.add_byte(0x0000, 0xa2);
    memory_bus.add_byte(0x0001, 0x10);
    memory_bus.add_byte(0x0002, 0x00);
    let mut cpu = Cpu::<ClockCounter>::new();
    cpu.init();

    start(&mut cpu, &mut memory_bus);

    assert!(!cpu.zero);
    assert!(!cpu.negative);
}

#[test]
fn load_x_imm_flags_zero() {
    let mut memory_bus = MemoryMock::new();
    memory_bus.add_byte(0x0000, 0xa2);
    memory_bus.add_byte(0x0001, 0x00);
    memory_bus.add_byte(0x0002, 0x00);
    let mut cpu = Cpu::<ClockCounter>::new();
    cpu.init();

    start(&mut cpu, &mut memory_bus);

    assert!(cpu.zero);
    assert!(!cpu.negative);
}

#[test]
fn test_ldy_imm_clock() {
    let mut memory_bus = MemoryMock::new();
    memory_bus.add_byte(0x0000, 0xa0);
    let mut cpu = Cpu::new();
    cpu.init();

    cpu.register_clock_handler(ClockCounter::new());

    start(&mut cpu, &mut memory_bus);

    assert_eq!(clocks(&cpu), 2);
}

#[test]
fn load_y_immediate() {
    let mut memory_bus = MemoryMock::new();
    memory_bus.add_byte(0x0000, 0xa0);
    memory_bus.add_byte(0x0001, 0x01);
    memory_bus.add_byte(0x0002, 0x00);
    let mut cpu = Cpu::<ClockCounter>::new();
    cpu.init();

    start(&mut cpu, &mut memory_bus);

    assert_eq!(cpu.ry, 0x01);
}

#[test]
fn load_y_imm_flags() {
    let mut memory_bus = MemoryMock::new();
    memory_bus.add_byte(0x0000, 0xa0);
    memory_bus.add_byte(0x0001, 0x01);
    memory_bus.add_byte(0x0002, 0x00);
    let mut cpu = Cpu::<ClockCounter>::new();
    cpu.init();

    start(&mut cpu, &mut memory_bus);

    assert!(!cpu.zero);
    assert!(!cpu.negative);
}

#[test]
fn load_y_imm_flag_zero() {
    let mut memory_bus = MemoryMock::new();
    memory_bus.add_byte(0x0000, 0xa0);
    memory_bus.add_byte(0x0001, 0x00);
    memory_bus.add_byte(0x0002, 0x00);
    let mut cpu = Cpu::<ClockCounter>::new();
    cpu.init();

    start(&mut cpu, &mut memory_bus);

    assert!(cpu.zero);
    assert!(!cpu.negative);
}

#[test]
fn move_ax_clock() {
    let mut memory_bus = MemoryMock::new();
    memory_bus.add_byte(0x0000, 0xaa);
    let mut cpu = Cpu::new();
    cpu.init();

    cpu.register_clock_handler(ClockCounter::new());

    start(&mut cpu, &mut memory_bus);

    assert_eq!(clocks(&cpu), 2);
}

#[test]
fn move_a_to_x() {
    const DATA: Byte = 0x11;
    let mut memory_bus = MemoryMock::new();
    memory_bus.add_byte(0x0000, 0xaa);
    let mut cpu = Cpu::<ClockCounter>::new();
    cpu.init();
    cpu.ra = DATA;

    start(&mut cpu, &mut memory_bus);

    assert_eq!(cpu.rx, DATA);
}

#[test]
fn move_ay_clock() {
    let mut memory_bus = MemoryMock::new();
    memory_bus.add_byte(0x0000, 0xa8);
    let mut cpu = Cpu::new();
    cpu.init();

    cpu.register_clock_handler(ClockCounter::new());

    start(&mut cpu, &mut memory_bus);

    assert_eq!(clocks(&cpu), 2);
}

#[test]
fn move_a_to_y() {
    const DATA: Byte = 0xba;
    let mut memory_bus = MemoryMock::new();
    memory_bus.add_byte(0x0000, 0xa8);
    let mut cpu = Cpu::<ClockCounter>::new();
    cpu.init();
    cpu.ra = DATA;

    start(&mut cpu, &mut memory_bus);

    assert_eq!(cpu.ry, DATA);
}

#[test]
fn move_sx_clock() {
    let mut memory_bus = MemoryMock::new();
    memory_bus.add_byte(0x0000, 0xba);
    let mut cpu = Cpu::new();
    cpu.init();

    cpu.register_clock_handler(ClockCounter::new());

    start(&mut cpu, &mut memory_bus);

    assert_eq!(clocks(&cpu), 2);
}

#[test]
fn move_s_to_x() {
    let mut memory_bus = MemoryMock::new();
    memory_bus.add_byte(0x0000, 0xba);
    let mut cpu = Cpu::<ClockCounter>::new();
    cpu.init();

    start(&mut cpu, &mut memory_bus);

    assert_eq!(cpu.rx, 0xff);
}

#[test]
fn sp_init_to_ff() {
    let mut cpu = Cpu::<ClockCounter>::new();
    cpu.init();
    assert_eq!(cpu.sp, 0xff);
}

#[test]
fn move_ya_clock() {
    let mut memory_bus = MemoryMock::new();
    memory_bus.add_byte(0x0000, 0x98);
    let mut cpu = Cpu::new();
    cpu.init();

    cpu.register_clock_handler(ClockCounter::new());

    start(&mut cpu, &mut memory_bus);

    assert_eq!(clocks(&cpu), 2);
}

#[test]
fn move_y_to_a() {
    let mut memory_bus = MemoryMock::new();
    memory_bus.add_byte(0x0000, 0x98);
    let mut cpu = Cpu::<ClockCounter>::new();
    cpu.init();
    cpu.ry = 0xfa;

    start(&mut cpu, &mut memory_bus);

    assert_eq!(cpu.ra, 0xfa);
}

#[test]
fn move_xa_clock() {
    let mut memory_bus = MemoryMock::new();
    memory_bus.add_byte(0x0000, 0x8a);
    let mut cpu = Cpu::new();
    cpu.init();

    cpu.register_clock_handler(ClockCounter::new());

    start(&mut cpu, &mut memory_bus);

    assert_eq!(clocks(&cpu), 2);
}

#[test]
fn move_x_to_a() {
    let mut memory_bus = MemoryMock::new();
    memory_bus.add_byte(0x0000, 0x8a);
    let mut cpu = Cpu::<ClockCounter>::new();
    cpu.init();
    cpu.rx = 0x1f;

    start(&mut cpu, &mut memory_bus);

    assert_eq!(cpu.ra, 0x1f);
}

#[test]
fn move_xs_clock() {
    let mut memory_bus = MemoryMock::new();
    memory_bus.add_byte(0x0000, 0x9a);
    let mut cpu = Cpu::new();
    cpu.init();

    cpu.register_clock_handler(ClockCounter::new());

    start(&mut cpu, &mut memory_bus);

    assert_eq!(clocks(&cpu), 2);
}

#[test]
fn move_x_to_s() {
    let mut memory_bus = MemoryMock::new();
    memory_bus.add_byte(0x0000, 0x9a);
    let mut cpu = Cpu::<ClockCounter>::new();
    cpu.init();
    cpu.rx = 0xf1;

    start(&mut cpu, &mut memory_bus);

    assert_eq!(cpu.sp, 0xf1);
}

#[test]
fn and_immediate() {
    const CURRENT_REG_VALUE: Byte = 0x11;
    const MEMORY_VALUE: Byte = 0x01;
    let mut memory_bus = MemoryMock::new();
    memory_bus.add_byte(0x0000, 0x29);
    memory_bus.add_byte(0x0001, MEMORY_VALUE);
    let mut cpu = Cpu::<ClockCounter>::new();
    cpu.init();
    cpu.ra = CURRENT_REG_VALUE;

    start(&mut cpu, &mut memory_bus);

    assert_eq!(cpu.ra, CURRENT_REG_VALUE & MEMORY_VALUE);
}

#[test]
fn and_immediate_clock() {
    let mut memory_bus = MemoryMock::new();
    memory_bus.add_byte(0x0000, 0x29);
    let mut cpu = Cpu::new();
    cpu.init();

    cpu.register_clock_handler(ClockCounter::new());

    start(&mut cpu, &mut memory_bus);

    assert_eq!(clocks(&cpu), 2);
}

#[test]
fn and_zero() {
    const CURRENT_REG_VALUE: Byte = 0x03;
    const MEMORY_VALUE: Byte = 0x02;
    let mut memory_bus = MemoryMock::new();
    memory_bus.add_byte(0x0000, 0x25);
    memory_bus.add_byte(0x0001, 0x50);
    memory_bus.add_byte(0x0050, MEMORY_VALUE);
    let mut cpu = Cpu::<ClockCounter>::new();
    cpu.init();
    cpu.ra = CURRENT_REG_VALUE;

    start(&mut cpu, &mut memory_bus);

    assert_eq!(cpu.ra, CURRENT_REG_VALUE & MEMORY_VALUE);
}

#[test]
fn and_zero_clock() {
    let mut memory_bus = MemoryMock::new();
    memory_bus.add_byte(0x0000, 0x25);
    let mut cpu = Cpu::new();
    cpu.init();

    cpu.register_clock_handler(ClockCounter::new());

    start(&mut cpu, &mut memory_bus);

    assert_eq!(clocks(&cpu), 3);
}

#[test]
fn and_zero_x() {
    const CURRENT_REG_VALUE: Byte = 0x03;
    const MEMORY_VALUE: Byte = 0x01;
    let mut memory_bus = MemoryMock::new();
    memory_bus.add_byte(0x0000, 0x35);
    memory_bus.add_byte(0x0001, 0x01);
    memory_bus.add_byte(0x000a, MEMORY_VALUE);
    let mut cpu = Cpu::<ClockCounter>::new();
    cpu.init();
    cpu.ra = CURRENT_REG_VALUE;
    cpu.rx = 0x09;

    start(&mut cpu, &mut memory_bus);

    assert_eq!(cpu.ra, CURRENT_REG_VALUE & MEMORY_VALUE);
}

#[test]
fn and_zero_x_clock() {
    let mut memory_bus = MemoryMock::new();
    memory_bus.add_byte(0x0000, 0x35);
    let mut cpu = Cpu::new();
    cpu.init();

    cpu.register_clock_handler(ClockCounter::new());

    start(&mut cpu, &mut memory_bus);

    assert_eq!(clocks(&cpu), 4);
}

#[test]
fn jump() {
    const JUMP_LOC: Byte = 0x14;
    let mut memory_bus = MemoryMock::new();
    memory_bus.add_byte(0x0000, 0x4c);
    memory_bus.add_byte(0x0001, 0x14);
    memory_bus.add_byte(0x0002, 0x00);
    let mut cpu = Cpu::<ClockCounter>::new();
    cpu.init();

    start(&mut cpu, &mut memory_bus);

    assert_eq!(cpu.pc, (JUMP_LOC + 1) as Word);
}

#[test]
fn jump_clock_cycle() {
    let mut memory_bus = MemoryMock::new();
    memory_bus.add_byte(0x0000, 0x4c);
    memory_bus.add_byte(0x0001, 0x14);
    let mut cpu = Cpu::<ClockCounter>::new();
    cpu.init();
    cpu.register_clock_handler(ClockCounter::new());

    start(&mut cpu, &mut memory_bus);

    assert_eq!(clocks(&cpu), 3);
}

#[test]
fn branch_carry_clear_no_branch() {
    let mut memory_bus = MemoryMock::new();
    memory_bus.add_byte(0x0000, 0x90);
    memory_bus.add_byte(0x0001, 0x14);
    let mut cpu = Cpu::<ClockCounter>::new();
    cpu.init();
    cpu.carry = true;

    start(&mut cpu, &mut memory_bus);

    assert_eq!(cpu.pc, 0x0003);
}

#[test]
fn branch_carry_clear_branch() {
    let mut memory_bus = MemoryMock::new();
    memory_bus.add_byte(0x0000, 0x90);
    memory_bus.add_byte(0x0001, 0x14);
    let mut cpu = Cpu::<ClockCounter>::new();
    cpu.init();
    cpu.carry = false;

    start(&mut cpu, &mut memory_bus);

    assert_eq!(cpu.pc, 0x14 + 3);
}

#[test]
fn branch_carry_clear_no_branch_clock() {
    let mut memory_bus = MemoryMock::new();
    memory_bus.add_byte(0x0000, 0x90);
    memory_bus.add_byte(0x0001, 0x14);
    let mut cpu = Cpu::<ClockCounter>::new();
    cpu.init();
    cpu.carry = true;
    cpu.register_clock_handler(ClockCounter::new());

    start(&mut cpu, &mut memory_bus);

    assert_eq!(clocks(&cpu), 2);
}

#[test]
fn branch_carry_clear_branch_clock() {
    let mut memory_bus = MemoryMock::new();
    memory_bus.add_byte(0x0000, 0x90);
    memory_bus.add_byte(0x0001, 0x14);
    let mut cpu = Cpu::<ClockCounter>::new();
    cpu.init();
    cpu.carry = false;
    cpu.register_clock_handler(ClockCounter::new());

    start(&mut cpu, &mut memory_bus);

    assert_eq!(clocks(&cpu), 3);
}

#[test]
fn branch_carry_clear_branch_crossed_page_clock() {
    // The displacement is a signed byte: 0xff goes back by one. The branch
    // stands at the end of page 0, so that going back by one from behind it
    // leaves page 1.
    let mut memory_bus = MemoryMock::new();
    memory_bus.add_byte(0xfffc, 0xfe);
    memory_bus.add_byte(0x00fe, 0x90);
    memory_bus.add_byte(0x00ff, 0xff);
    let mut cpu = Cpu::<ClockCounter>::new();
    cpu.init();
    cpu.carry = false;
    cpu.register_clock_handler(ClockCounter::new());

    cpu.start(&mut memory_bus, 1).unwrap();

    assert_eq!(cpu.pc, 0x00ff);
    assert_eq!(clocks(&cpu), 5);
}

#[test]
fn branch_carry_clear_branch_same_page_clock() {
    let mut memory_bus = MemoryMock::new();
    memory_bus.add_byte(0x0000, 0x90);
    let mut cpu = Cpu::new();
    cpu.init();

    cpu.register_clock_handler(ClockCounter::new());

    start(&mut cpu, &mut memory_bus);

    assert_eq!(clocks(&cpu), 3);
}

#[test]
fn branch_carry_set_follow_branch() {
    let mut memory_bus = MemoryMock::new();
    memory_bus.add_byte(0x0000, 0xb0);
    memory_bus.add_byte(0x0001, 0x14);
    let mut cpu = Cpu::<ClockCounter>::new();
    cpu.init();
    cpu.carry = true;

    start(&mut cpu, &mut memory_bus);

    assert_eq!(cpu.pc, 0x14 + 3);
}

#[test]
fn branch_carry_set_no_follow() {
    let mut memory_bus = MemoryMock::new();
    memory_bus.add_byte(0x0000, 0xb0);
    memory_bus.add_byte(0x0001, 0x15);
    let mut cpu = Cpu::<ClockCounter>::new();
    cpu.init();
    cpu.carry = false;

    start(&mut cpu, &mut memory_bus);

    assert_eq!(cpu.pc, 0x03);
}

#[test]
fn branch_minus_follow() {
    let mut memory_bus = MemoryMock::new();
    memory_bus.add_byte(0x0000, 0x30);
    memory_bus.add_byte(0x0001, 0x14);
    let mut cpu = Cpu::<ClockCounter>::new();
    cpu.init();
    cpu.negative = true;

    start(&mut cpu, &mut memory_bus);

    assert_eq!(cpu.pc, 0x14 + 3);
}

#[test]
fn branch_minus_no_follow() {
    let mut memory_bus = MemoryMock::new();
    memory_bus.add_byte(0x0000, 0x30);
    memory_bus.add_byte(0x0001, 0x14);
    let mut cpu = Cpu::<ClockCounter>::new();
    cpu.init();
    cpu.negative = false;

    start(&mut cpu, &mut memory_bus);

    assert_eq!(cpu.pc, 0x03);
}

#[test]
fn branch_positive_follow() {
    let mut memory_bus = MemoryMock::new();
    memory_bus.add_byte(0x0000, 0x10);
    memory_bus.add_byte(0x0001, 0x14);
    let mut cpu = Cpu::<ClockCounter>::new();
    cpu.init();
    cpu.negative = false;

    start(&mut cpu, &mut memory_bus);

    assert_eq!(cpu.pc, 0x14 + 3);
}

#[test]
fn branch_positive_no_follow() {
    let mut memory_bus = MemoryMock::new();
    memory_bus.add_byte(0x0000, 0x10);
    memory_bus.add_byte(0x0001, 0x14);
    let mut cpu = Cpu::<ClockCounter>::new();
    cpu.init();
    cpu.negative = true;

    start(&mut cpu, &mut memory_bus);

    assert_eq!(cpu.pc, 0x03);
}

#[test]
fn branch_equal_follow() {
    let mut memory_bus = MemoryMock::new();
    memory_bus.add_byte(0x0000, 0xf0);
    memory_bus.add_byte(0x0001, 0x14);
    let mut cpu = Cpu::<ClockCounter>::new();
    cpu.init();
    cpu.zero = true;

    start(&mut cpu, &mut memory_bus);

    assert_eq!(cpu.pc, 0x14 + 3);
}

#[test]
fn branch_equal_no_follow() {
    let mut memory_bus = MemoryMock::new();
    memory_bus.add_byte(0x0000, 0xf0);
    memory_bus.add_byte(0x0001, 0x14);
    let mut cpu = Cpu::<ClockCounter>::new();
    cpu.init();
    cpu.zero = false;

    start(&mut cpu, &mut memory_bus);

    assert_eq!(cpu.pc, 0x03);
}

#[test]
fn branch_not_equal_follow() {
    let mut memory_bus = MemoryMock::new();
    memory_bus.add_byte(0x0000, 0xd0);
    memory_bus.add_byte(0x0001, 0x14);
    let mut cpu = Cpu::<ClockCounter>::new();
    cpu.init();
    cpu.zero = false;

    start(&mut cpu, &mut memory_bus);

    assert_eq!(cpu.pc, 0x14 + 3);
}

#[test]
fn branch_not_equal_no_follow() {
    let mut memory_bus = MemoryMock::new();
    memory_bus.add_byte(0x0000, 0xd0);
    memory_bus.add_byte(0x0001, 0x14);
    let mut cpu = Cpu::<ClockCounter>::new();
    cpu.init();
    cpu.zero = true;

    start(&mut cpu, &mut memory_bus);

    assert_eq!(cpu.pc, 0x3);
}

#[test]
fn bit_zero_is_zero() {
    const RA: Byte = 0b10101010;
    const MEM: Byte = 0b01010101;
    let mut memory_bus = MemoryMock::new();
    memory_bus.add_byte(0x0000, 0x24);
    memory_bus.add_byte(0x0001, 0x24);
    memory_bus.add_byte(0x0024, MEM);
    let mut cpu = Cpu::<ClockCounter>::new();
    cpu.init();
    cpu.ra = RA;

    start(&mut cpu, &mut memory_bus);

    assert!(cpu.zero);
}

#[test]
fn bit_zero_is_negative() {
    const RA: Byte = 0b10000000;
    const MEM: Byte = 0b10001111;
    let mut memory_bus = MemoryMock::new();
    memory_bus.add_byte(0x0000, 0x24);
    memory_bus.add_byte(0x0001, 0x24);
    memory_bus.add_byte(0x0024, MEM);
    let mut cpu = Cpu::<ClockCounter>::new();
    cpu.init();
    cpu.ra = RA;

    start(&mut cpu, &mut memory_bus);

    assert!(cpu.negative);
}

#[test]
fn bit_zero_clock() {
    let mut memory_bus = MemoryMock::new();
    memory_bus.add_byte(0x0000, 0x24);
    let mut cpu = Cpu::new();
    cpu.init();

    cpu.register_clock_handler(ClockCounter::new());

    start(&mut cpu, &mut memory_bus);

    assert_eq!(clocks(&cpu), 3);
}

#[test]
fn bit_abs_is_zero() {
    const RA: Byte = 0b10101010;
    const MEM: Byte = 0b01010101;
    let mut memory_bus = MemoryMock::new();
    memory_bus.add_byte(0x0000, 0x2c);
    memory_bus.add_byte(0x0001, 0x2c);
    memory_bus.add_byte(0x0002, 0x00);
    memory_bus.add_byte(0x002c, MEM);
    let mut cpu = Cpu::<ClockCounter>::new();
    cpu.init();
    cpu.ra = RA;

    start(&mut cpu, &mut memory_bus);

    assert!(cpu.zero);
}

#[test]
fn bit_abs_is_negative() {
    const RA: Byte = 0b10000000;
    const MEM: Byte = 0b10001100;
    let mut memory_bus = MemoryMock::new();
    memory_bus.add_byte(0x0000, 0x2c);
    memory_bus.add_byte(0x0001, 0x2c);
    memory_bus.add_byte(0x0002, 0x00);
    memory_bus.add_byte(0x002c, MEM);
    let mut cpu = Cpu::<ClockCounter>::new();
    cpu.init();
    cpu.ra = RA;

    start(&mut cpu, &mut memory_bus);

    assert!(cpu.negative);
}

#[test]
fn bit_abs_clock() {
    let mut memory_bus = MemoryMock::new();
    memory_bus.add_byte(0x0000, 0x2c);
    let mut cpu = Cpu::new();
    cpu.init();

    cpu.register_clock_handler(ClockCounter::new());

    start(&mut cpu, &mut memory_bus);

    assert_eq!(clocks(&cpu), 4);
}

#[test]
fn inc_x() {
    const DATA: Byte = 0x11;
    let mut memory_bus = MemoryMock::new();
    memory_bus.add_byte(0x0000, 0xe8);
    let mut cpu = Cpu::<ClockCounter>::new();
    cpu.init();
    cpu.rx = DATA;

    start(&mut cpu, &mut memory_bus);

    assert_eq!(cpu.rx, DATA + 1);
}

#[test]
fn inc_x_overflow() {
    const DATA: Byte = 0xff;
    let mut memory_bus = MemoryMock::new();
    memory_bus.add_byte(0x0000, 0xe8);
    let mut cpu = Cpu::<ClockCounter>::new();
    cpu.init();
    cpu.rx = DATA;

    start(&mut cpu, &mut memory_bus);

    assert_eq!(cpu.rx, 0x00);
}

#[test]
fn inc_x_clock() {
    let mut memory_bus = MemoryMock::new();
    memory_bus.add_byte(0x0000, 0xe8);
    let mut cpu = Cpu::new();
    cpu.init();

    cpu.register_clock_handler(ClockCounter::new());

    start(&mut cpu, &mut memory_bus);

    assert_eq!(clocks(&cpu), 2);
}

#[test]
fn inc_y() {
    const DATA: Byte = 0xf1;
    let mut memory_bus = MemoryMock::new();
    memory_bus.add_byte(0x0000, 0xc8);
    let mut cpu = Cpu::<ClockCounter>::new();
    cpu.init();
    cpu.ry = DATA;

    start(&mut cpu, &mut memory_bus);

    assert_eq!(cpu.ry, DATA + 1);
}

#[test]
fn inc_y_clock() {
    let mut memory_bus = MemoryMock::new();
    memory_bus.add_byte(0x0000, 0xc8);
    let mut cpu = Cpu::new();
    cpu.init();

    cpu.register_clock_handler(ClockCounter::new());

    start(&mut cpu, &mut memory_bus);

    assert_eq!(clocks(&cpu), 2);
}
