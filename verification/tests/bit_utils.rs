use sixty_five::bit_utils::{is_bit_set, is_bit_set_byte, is_bit_unset, page_crossed};

#[test]
fn word_bits() {
    assert!(is_bit_set(0x0001, 0));
    assert!(!is_bit_set(0x0001, 1));
    assert!(is_bit_set(0x0080, 7));
    assert!(is_bit_set(0x0200, 9));
    assert!(is_bit_set(0x1000, 12));
    assert!(is_bit_set(0x8000, 15));
    assert!(!is_bit_set(0x7fff, 15));
    assert!(is_bit_unset(0x7fff, 15));
    assert!(!is_bit_unset(0xffff, 3));
    for bit in 0..16u16 {
        for value in [0x0000u16, 0xffff, 0xa5a5, 0x1234] {
            assert_eq!(is_bit_set(value, bit), (value >> bit) & 1 == 1);
            assert_eq!(is_bit_unset(value, bit), (value >> bit) & 1 == 0);
        }
    }
}

#[test]
fn byte_bits() {
    assert!(is_bit_set_byte(0x80, 7));
    assert!(!is_bit_set_byte(0x7f, 7));
    assert!(is_bit_set_byte(0x20, 5));
    for bit in 0..8u8 {
        for value in 0..=0xffu8 {
            assert_eq!(is_bit_set_byte(value, bit), (value >> bit) & 1 == 1);
        }
    }
}

#[test]
fn page_cross_predicate() {
    assert!(!page_crossed(0x1000, 0x10ff));
    assert!(page_crossed(0x10ff, 0x1100));
    assert!(page_crossed(0x0000, 0xffff));
    assert!(!page_crossed(0x1234, 0x1234));
    for base in [0x0000u16, 0x00ff, 0x0100, 0x12f0, 0xff01, 0xffff] {
        for offset in 0..=0xffu16 {
            let target = base.wrapping_add(offset);
            assert_eq!(page_crossed(base, target), (base & 0xff00) != (target & 0xff00));
            if base as u32 + offset as u32 <= 0xffff {
                assert_eq!(page_crossed(base, target), (base & 0xff) + offset > 0xff);
            }
        }
    }
}
