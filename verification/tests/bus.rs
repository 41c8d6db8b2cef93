use sixty_five::cartridge::Cartridge;
use sixty_five::error::EmulatorError;
use sixty_five::memory::Memory;
use sixty_five::memory_bus::mmio_range::MemRange;
use sixty_five::memory_bus::{
    decode_region, AtariMemoryBus, BusMember, BusRead, BusRegion, BusWrite, MemoryBus, NullBus,
};
use sixty_five::cpu::ClockHandler;
use sixty_five::memory_mock::MemoryMock;
use std::cmp::Ordering;

fn image() -> Vec<u8> {
    let mut bytes = vec![0u8; 4096];
    for (i, byte) in bytes.iter_mut().enumerate() {
        *byte = (i % 251) as u8;
    }
    bytes[0xffc] = 0x34;
    bytes[0xffd] = 0x12;
    bytes
}

fn console() -> AtariMemoryBus {
    let cartridge = Cartridge::from_bytes(image()).unwrap();
    AtariMemoryBus::new(
        BusMember::MainMemory(Memory::new()),
        BusMember::Null(NullBus {}),
        BusMember::Cartridge(cartridge),
    )
    .unwrap()
}

#[test]
fn memory_starts_zeroed() {
    let memory = Memory::new();
    assert!(memory.buffer.iter().all(|byte| *byte == 0));
    assert_eq!(memory.read_byte(0x80), 0);
    assert_eq!(memory.read_byte(0xff), 0);
}

#[test]
fn memory_reads_what_was_written() {
    let mut memory = Memory::new();
    memory.write_byte(0x0093, 0x5a);
    assert_eq!(memory.read_byte(0x0093), 0x5a);
    assert_eq!(memory.read_byte(0x0193), 0x5a);
    assert_eq!(memory.buffer[0x13], 0x5a);
    assert_eq!(memory.read_byte(0x0094), 0);
}

#[test]
fn cartridge_takes_4096_bytes_only() {
    assert!(Cartridge::from_bytes(image()).is_ok());
    for len in [0usize, 1, 2048, 4095, 4097, 8192] {
        match Cartridge::from_bytes(vec![0u8; len]) {
            Err(error) => assert_eq!(error, EmulatorError::CartridgeSizeUnsupported(len)),
            Ok(_) => panic!("a cartridge of {} bytes was accepted", len),
        }
    }
}

#[test]
fn cartridge_reads_through_low_twelve_bits() {
    let cartridge = Cartridge::from_bytes(image()).unwrap();
    assert_eq!(cartridge.read_byte(0x1000), 0);
    assert_eq!(cartridge.read_byte(0x1005), 5);
    assert_eq!(cartridge.read_byte(0xf005), 5);
    assert_eq!(cartridge.read_byte(0x0005), 5);
    assert_eq!(cartridge.read_byte(0x1ffc), 0x34);
    assert_eq!(cartridge.read_byte(0xfffd), 0x12);
}

#[test]
fn cartridge_ignores_writes() {
    let mut cartridge = Cartridge::from_bytes(image()).unwrap();
    cartridge.write_byte(0x1005, 0xee);
    assert_eq!(cartridge.read_byte(0x1005), 5);
}

#[test]
fn null_bus_reads_zero() {
    let mut null = NullBus {};
    null.write_byte(0x1234, 0xff);
    assert_eq!(null.read_byte(0x1234), 0);
}

#[test]
fn bus_member_dispatches() {
    let mut ram = BusMember::MainMemory(Memory::new());
    ram.write_byte(0x80, 7);
    assert_eq!(ram.read_byte(0x180), 7);
    let mut null = BusMember::Null(NullBus {});
    null.write_byte(0x80, 7);
    assert_eq!(null.read_byte(0x80), 0);
    let mut cart = BusMember::Cartridge(Cartridge::from_bytes(image()).unwrap());
    cart.write_byte(0x1003, 7);
    assert_eq!(cart.read_byte(0x1003), 3);
}

#[test]
fn bus_needs_memory_and_cartridge() {
    let cartridge = || BusMember::Cartridge(Cartridge::from_bytes(image()).unwrap());
    let memory = || BusMember::MainMemory(Memory::new());
    let null = || BusMember::Null(NullBus {});
    let usable = AtariMemoryBus::new(memory(), null(), cartridge()).unwrap();
    assert!(usable.is_usable());
    // the kind of the third device is not looked at
    for third in [memory(), cartridge()] {
        match AtariMemoryBus::new(memory(), third, cartridge()) {
            Ok(bus) => assert!(!bus.is_usable()),
            Err(_) => panic!("a bus with main memory and cartridge was refused"),
        }
    }
    let wrong = [
        AtariMemoryBus::new(null(), null(), cartridge()),
        AtariMemoryBus::new(cartridge(), null(), cartridge()),
        AtariMemoryBus::new(memory(), null(), memory()),
        AtariMemoryBus::new(memory(), null(), null()),
        AtariMemoryBus::new(null(), memory(), cartridge()),
        AtariMemoryBus::new(cartridge(), null(), memory()),
    ];
    for made in wrong {
        match made {
            Err(error) => assert_eq!(error, EmulatorError::BusConfigurationInvalid),
            Ok(_) => panic!("a wrong bus was accepted"),
        }
    }
}

#[test]
fn address_decode_uses_bits_7_9_12() {
    assert_eq!(decode_region(0x0000), BusRegion::Tia);
    assert_eq!(decode_region(0x007f), BusRegion::Tia);
    assert_eq!(decode_region(0x0080), BusRegion::Ram);
    assert_eq!(decode_region(0x00ff), BusRegion::Ram);
    assert_eq!(decode_region(0x0100), BusRegion::Tia);
    assert_eq!(decode_region(0x0180), BusRegion::Ram);
    assert_eq!(decode_region(0x0280), BusRegion::PiaIo);
    assert_eq!(decode_region(0x0295), BusRegion::PiaIo);
    assert_eq!(decode_region(0x0200), BusRegion::Tia);
    assert_eq!(decode_region(0x1000), BusRegion::Cartridge);
    assert_eq!(decode_region(0x1fff), BusRegion::Cartridge);
    assert_eq!(decode_region(0xfffc), BusRegion::Cartridge);
    assert_eq!(decode_region(0x2080), BusRegion::Ram);
    assert_eq!(decode_region(0xe280), BusRegion::PiaIo);
    for addr in 0..=0xffffu16 {
        let bit = |n: u16| addr & (1 << n) != 0;
        let expected = if bit(12) {
            BusRegion::Cartridge
        } else if !bit(7) {
            BusRegion::Tia
        } else if !bit(9) {
            BusRegion::Ram
        } else {
            BusRegion::PiaIo
        };
        assert_eq!(decode_region(addr), expected);
    }
}

#[test]
fn ram_mirroring() {
    let mut bus = console();
    bus.write_byte(0x0080, 0x42);
    assert_eq!(bus.read_byte(0x0180), 0x42);
    assert_eq!(bus.read_byte(0x0080), 0x42);
    assert_eq!(bus.read_byte(0x0480), 0x42);
    bus.write_byte(0x01ff, 0x99);
    assert_eq!(bus.read_byte(0x00ff), 0x99);
    assert_eq!(bus.read_byte(0x0080), 0x42);
}

#[test]
fn cartridge_immutability() {
    let mut bus = console();
    let before: Vec<u8> = (0x1000..=0x1fffu16).map(|addr| bus.read_byte(addr)).collect();
    assert_eq!(before, image());
    for addr in [0x1000u16, 0x1005, 0x1fff, 0xf000, 0xfffc, 0x3123] {
        bus.write_byte(addr, 0xee);
    }
    let after: Vec<u8> = (0x1000..=0x1fffu16).map(|addr| bus.read_byte(addr)).collect();
    assert_eq!(after, image());
    // nor does a write anywhere else change the image
    bus.write_byte(0x0080, 1);
    bus.write_byte(0x0000, 1);
    bus.write_byte(0x0295, 1);
    let last: Vec<u8> = (0xf000..=0xffffu16).map(|addr| bus.read_byte(addr)).collect();
    assert_eq!(last, image());
}

#[test]
fn unmapped_reads_are_zero_and_writes_dropped() {
    let mut bus = console();
    for addr in [0x0000u16, 0x0009, 0x007f, 0x0100, 0x0280, 0x0284, 0x0285, 0x0298, 0x02ff] {
        bus.write_byte(addr, 0xaa);
        assert_eq!(bus.read_byte(addr), 0);
    }
    assert_eq!(bus.read_byte(0x0080), 0);
    // none of these writes has programmed the timer
    assert_eq!(bus.timer().current_interval, 0);
    assert_eq!(bus.timer().current_time, 0xff);
}

#[test]
fn zero_page_helpers() {
    let mut bus = MemoryMock::new();
    bus.write_to_zero_page(0x12ab, 0x77);
    assert_eq!(bus.read_byte(0x00ab), 0x77);
    assert_eq!(bus.read_byte(0x12ab), 0);
    assert_eq!(bus.read_from_zero_page(0x34ab), 0x77);
    bus.add_byte(0x00ff, 0xcd);
    bus.add_byte(0x0000, 0xab);
    bus.add_byte(0x0100, 0xee);
    assert_eq!(bus.read_word_zero_page(0x00ff), 0xabcd);
    bus.add_byte(0x0010, 0x34);
    bus.add_byte(0x0011, 0x12);
    assert_eq!(bus.read_word_zero_page(0x0010), 0x1234);
    assert_eq!(bus.read_word_zero_page(0x5510), 0x1234);
}

#[test]
fn read_word_abs_stays_in_page() {
    let mut bus = MemoryMock::new();
    bus.add_byte(0x10ff, 0x34);
    bus.add_byte(0x1100, 0x56);
    bus.add_byte(0x1000, 0x12);
    assert_eq!(bus.read_word_abs(0x10ff), 0x1234);
    bus.add_byte(0x2000, 0xcd);
    bus.add_byte(0x2001, 0xab);
    assert_eq!(bus.read_word_abs(0x2000), 0xabcd);
}

#[test]
fn console_reads_reset_vector_from_cartridge() {
    let bus = console();
    assert_eq!(bus.read_word_abs(0xfffc), 0x1234);
}

#[test]
fn mock_memory_keeps_every_cell() {
    let mut bus = MemoryMock::new();
    assert_eq!(bus.read_byte(0x0000), 0);
    assert_eq!(bus.read_byte(0xffff), 0);
    bus.write_byte(0x0000, 1);
    bus.write_byte(0xffff, 2);
    bus.write_byte(0x1000, 3);
    assert_eq!(bus.read_byte(0x0000), 1);
    assert_eq!(bus.read_byte(0xffff), 2);
    assert_eq!(bus.read_byte(0x1000), 3);
    assert_eq!(bus.read_byte(0x0001), 0);
}

#[test]
fn range_compares_with_word() {
    let range = MemRange(0x80..0x100);
    assert_eq!(range.compare_with_word(&0x80), Ordering::Equal);
    assert_eq!(range.compare_with_word(&0xff), Ordering::Equal);
    assert_eq!(range.compare_with_word(&0x7f), Ordering::Less);
    assert_eq!(range.compare_with_word(&0x00), Ordering::Less);
    assert_eq!(range.compare_with_word(&0x100), Ordering::Greater);
    assert_eq!(range.compare_with_word(&0xffff), Ordering::Greater);
    let empty = MemRange(0x10..0x10);
    assert_eq!(empty.compare_with_word(&0x10), Ordering::Greater);
    assert_eq!(empty.compare_with_word(&0x0f), Ordering::Less);
}

#[test]
fn ranges_compare_by_position() {
    let low = MemRange(0x00..0x80);
    let high = MemRange(0x80..0x100);
    let across = MemRange(0x40..0xc0);
    assert_eq!(low.partial_cmp(&high), Some(Ordering::Less));
    assert_eq!(high.partial_cmp(&low), Some(Ordering::Greater));
    assert_eq!(low.partial_cmp(&across), None);
    assert_eq!(across.partial_cmp(&high), None);
    assert_eq!(low.partial_cmp(&low), None);
    assert!(low < high);
    assert!(high > low);
    assert!(!(low < across));
    assert!(low == MemRange(0x00..0x80));
    assert!(MemRange::default() == MemRange(0..0));
}

#[test]
fn timer_countdown_on_the_bus() {
    for data in [0x00u8, 0x5a, 0xff] {
        let mut bus = console();
        bus.write_byte(0x0295, data);
        assert_eq!(bus.read_byte(0x0284), 0xff);
        for _ in 0..8 {
            bus.handle_clock(1);
        }
        assert_eq!(bus.read_byte(0x0284), 0xfe);
    }
    let mut bus = console();
    bus.write_byte(0x0295, 0);
    bus.handle_clock(8);
    assert_eq!(bus.read_byte(0x0284), 0xfe);
    assert_eq!(bus.timer().current_time, 2032);
}

#[test]
fn timer_registers_on_the_bus() {
    for (addr, interval) in [(0x0294u16, 1u32), (0x0295, 8), (0x0296, 64), (0x0297, 1024)] {
        let mut bus = console();
        bus.write_byte(addr, 0);
        assert_eq!(bus.timer().current_interval, interval);
        assert_eq!(bus.timer().current_time, 0xff * interval);
        assert_eq!(bus.read_byte(0x0284), 0xff);
        // the registers that program the timer read as 0
        assert_eq!(bus.read_byte(addr), 0);
    }
    // the low twelve bits are matched, among the I/O registers
    let mut bus = console();
    bus.write_byte(0x2296, 0);
    assert_eq!(bus.timer().current_interval, 64);
    assert_eq!(bus.read_byte(0xe284), 0xff);
    // with bit 12 set the address is the cartridge's
    bus.write_byte(0x1297, 0);
    assert_eq!(bus.timer().current_interval, 64);
    assert_eq!(bus.read_byte(0x1284), image()[0x284]);
}

#[test]
fn timer_on_the_bus_is_silent_until_programmed() {
    let mut bus = console();
    assert_eq!(bus.read_byte(0x0284), 0);
    bus.handle_clock(5);
    assert_eq!(bus.read_byte(0x0284), 0);
    assert_eq!(bus.timer().current_time, 0xff - 5);
    // ticks reach the timer alone
    bus.write_byte(0x0080, 0x11);
    bus.handle_clock(3);
    assert_eq!(bus.read_byte(0x0080), 0x11);
    assert_eq!(bus.read_byte(0x1005), 5);
}

#[test]
fn mock_memory_counts_no_cycles() {
    let mut bus = MemoryMock::new();
    bus.add_byte(0x0284, 0x12);
    bus.handle_clock(100);
    assert_eq!(bus.read_byte(0x0284), 0x12);
}
