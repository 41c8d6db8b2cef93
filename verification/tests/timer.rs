use sixty_five::clock::{ClockCounter, ClockSink};
use sixty_five::cpu::{ClockHandler, Cpu};
use sixty_five::io_bus::IOBus;
use sixty_five::memory_bus::BusRead;
use sixty_five::memory_mock::MemoryMock;
use sixty_five::timer::Timer;

#[test]
fn test_reset_1() {
    let mut timer = Timer::new();
    timer.reset(1);

    let timer_value = timer.read_byte(0x284);

    assert_eq!(timer_value, 0xff);
}

#[test]
fn test_reset_8() {
    let mut timer = Timer::new();
    timer.reset(8);

    let timer_value = timer.read_byte(0x284);

    assert_eq!(timer_value, 0xff);
}

#[test]
fn test_reset_64() {
    let mut timer = Timer::new();
    timer.reset(64);

    let timer_value = timer.read_byte(0x284);

    assert_eq!(timer_value, 0xff);
}

#[test]
fn test_reset_1024() {
    let mut timer = Timer::new();
    timer.reset(1024);

    let timer_value = timer.read_byte(0x284);

    assert_eq!(timer_value, 0xff);
}

#[test]
fn timer_starts_unprogrammed() {
    let timer = Timer::new();
    assert_eq!(timer.current_time, 0xff);
    assert_eq!(timer.current_interval, 0);
    assert!(timer.overflowed);
}

#[test]
fn timer_write_programs_interval() {
    for (addr, interval) in [(0x294u16, 1u32), (0x295, 8), (0x296, 64), (0x297, 1024)] {
        let mut timer = Timer::new();
        timer.write_byte(addr, 0x55);
        assert_eq!(timer.current_interval, interval);
        assert_eq!(timer.current_time, 0xff * interval);
        assert!(timer.overflowed);
    }
}

#[test]
fn timer_write_matches_low_twelve_bits() {
    let mut timer = Timer::new();
    timer.write_byte(0xf296, 0);
    assert_eq!(timer.current_interval, 64);
    timer.write_byte(0x1297, 0);
    assert_eq!(timer.current_interval, 1024);
}

#[test]
fn timer_write_elsewhere_gives_interval_one() {
    let mut timer = Timer::new();
    timer.write_byte(0x0297, 0);
    timer.write_byte(0x0280, 0);
    assert_eq!(timer.current_interval, 1);
    assert_eq!(timer.current_time, 0xff);
}

#[test]
fn timer_countdown_interval_8() {
    let mut timer = Timer::new();
    timer.write_byte(0x0295, 0xab);
    for _ in 0..8 {
        timer.handle_clock(1);
    }
    assert_eq!(timer.read_byte(0x0284), 0xfe);
}

#[test]
fn timer_countdown_in_one_tick_of_8() {
    let mut timer = Timer::new();
    timer.write_byte(0x0295, 0);
    timer.handle_clock(8);
    assert_eq!(timer.current_time, 2032);
    assert_eq!(timer.read_byte(0x0284), 0xfe);
}

#[test]
fn timer_count_is_truncated_quotient() {
    let mut timer = Timer::new();
    timer.write_byte(0x0296, 0);
    timer.handle_clock(1);
    // 16319 / 64 = 254
    assert_eq!(timer.current_time, 16319);
    assert_eq!(timer.read_byte(0x0284), 254);
    let wide = Timer { current_time: 0x1234, current_interval: 1, overflowed: false };
    assert_eq!(wide.read_byte(0x0284), 0x34);
}

#[test]
fn timer_read_elsewhere_is_zero() {
    let mut timer = Timer::new();
    timer.write_byte(0x0294, 0);
    assert_eq!(timer.read_byte(0x0294), 0);
    assert_eq!(timer.read_byte(0x0285), 0);
    assert_eq!(timer.read_byte(0x0000), 0);
    assert_eq!(timer.read_byte(0x1284), 0xff);
    // an unprogrammed timer can be read anywhere but at the count
    assert_eq!(Timer::new().read_byte(0x0294), 0);
}

#[test]
fn timer_rolls_over() {
    let mut timer = Timer::new();
    timer.write_byte(0x0294, 0);
    timer.handle_clock(0xff);
    assert_eq!(timer.current_time, 0);
    timer.handle_clock(3);
    assert_eq!(timer.current_time, 0xff - 3);
    timer.handle_clock(0xff - 3);
    assert_eq!(timer.current_time, 0);
}

#[test]
fn timer_rollover_wraps_the_counter() {
    let mut timer = Timer { current_time: 0, current_interval: 1, overflowed: true };
    timer.handle_clock(0x100);
    assert_eq!(timer.current_time, u32::MAX);
}

#[test]
fn timer_ticks_with_the_processor() {
    let mut bus = MemoryMock::new();
    bus.add_byte(0x0000, 0xea);
    bus.add_byte(0x0001, 0xa9);
    bus.add_byte(0x0002, 0x01);
    bus.add_byte(0x0003, 0x4c);
    bus.add_byte(0x0004, 0x00);
    bus.add_byte(0x0005, 0x00);
    let mut timer = Timer::new();
    timer.write_byte(0x0295, 0);
    let mut cpu = Cpu::new();
    cpu.init();
    cpu.register_clock_handler(ClockSink::Timer(timer));
    cpu.register_clock_handler(ClockSink::Counter(ClockCounter::new()));

    // NOP, LDA #1, JMP 0: 2 + 2 + 3 cycles, and NOP again: 2
    cpu.start(&mut bus, 4).unwrap();

    assert_eq!(cpu.clock_cycles, 9);
    match &cpu.clock_handlers[0] {
        ClockSink::Timer(timer) => {
            assert_eq!(timer.current_time, 0xff * 8 - 9);
            assert_eq!(timer.read_byte(0x0284), 0xfd);
        }
        ClockSink::Counter(_) => panic!("the timer was registered first"),
    }
    match &cpu.clock_handlers[1] {
        ClockSink::Counter(counter) => assert_eq!(counter.count, 9),
        ClockSink::Timer(_) => panic!("the counter was registered second"),
    }
}

#[test]
fn clock_counter_wraps() {
    let mut counter = ClockCounter { count: u128::MAX - 1 };
    counter.handle_clock(3);
    assert_eq!(counter.count, 1);
}

#[test]
fn io_bus_reads_the_timer() {
    let mut timer = Timer::new();
    timer.write_byte(0x0295, 0);
    timer.handle_clock(16);
    let io = IOBus::new(&timer);
    assert_eq!(io.read_byte(0x284), 0xfd);
    assert_eq!(io.read_byte(0x294), 0);
    assert_eq!(io.read_byte(0x297), 0);
    assert_eq!(io.read_byte(0x298), 0);
    assert_eq!(io.read_byte(0x0000), 0);
    // the low twelve bits are matched
    assert_eq!(io.read_byte(0x1284), 0xfd);
    assert_eq!(io.read_byte(0xf295), 0);
}
