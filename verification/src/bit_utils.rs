//! Single-bit tests on bytes and words, and the page-cross predicate.

use vstd::prelude::*;
use crate::data_types::{Byte, Word};

verus! {

/// Mask that keeps the page number (the upper byte) of an address.
pub const UPPER_BYTE_MASK: Word = 0xFF00;

/// Bit `bit` of the word `addr` is one; bit 0 is the least significant.
pub open spec fn bit_set(addr: Word, bit: Word) -> bool {
    addr & (1u16 << bit) != 0
}

/// Bit `bit` of the byte `value` is one; bit 0 is the least significant.
pub open spec fn bit_set_byte(value: Byte, bit: Byte) -> bool {
    value & (1u8 << bit) != 0
}

/// The two addresses lie in different 256-byte pages.
pub open spec fn pages_differ(orig_addr: Word, new_addr: Word) -> bool {
    (orig_addr & 0xFF00) != (new_addr & 0xFF00)
}

/// Tests one bit of a word.
pub fn is_bit_set(addr: Word, bit: Word) -> (set: bool)
    requires
        bit < 16,
    ensures
        set == bit_set(addr, bit),
{
    addr & (0b00000001 << bit) > 0
}

/// Tests one bit of a byte.
pub fn is_bit_set_byte(value: Byte, bit: Byte) -> (set: bool)
    requires
        bit < 8,
    ensures
        set == bit_set_byte(value, bit),
{
    value & (0b01 << bit) > 0
}

/// Tests that one bit of a word is zero.
pub fn is_bit_unset(addr: Word, bit: Word) -> (unset: bool)
    requires
        bit < 16,
    ensures
        unset == !bit_set(addr, bit),
{
    !is_bit_set(addr, bit)
}

/// Tells whether going from `orig_addr` to `new_addr` leaves the page.
pub fn page_crossed(orig_addr: Word, new_addr: Word) -> (crossed: bool)
    ensures
        crossed == pages_differ(orig_addr, new_addr),
{
    (orig_addr & UPPER_BYTE_MASK) != (new_addr & UPPER_BYTE_MASK)
}

/// A byte taken as an address lies in the zero page: masking it to the zero
/// page changes nothing.
pub proof fn lemma_zero_page_mask(value: Byte)
    ensures
        (value as Word) & 0x00FF == value as Word,
{
    assert((value as u16) & 0x00FF == value as u16) by (bit_vector);
}

/// The sum of two bytes, masked to the zero page, is their sum modulo 256.
pub proof fn lemma_zero_page_sum(operand: Byte, index: Byte)
    ensures
        ((operand as Word + index as Word) as Word) & 0x00FF == operand.wrapping_add(index) as Word,
{
    let sum: Word = (operand as Word + index as Word) as Word;
    let wrapped: Byte = operand.wrapping_add(index);
    assert(sum & 0x00FF == wrapped as Word) by (bit_vector)
        requires
            sum == operand as Word + index as Word,
            wrapped == (if operand + index > 0xFF {
                (operand + index - 0x100) as u8
            } else {
                (operand + index) as u8
            }),
    ;
}

/// A page is the address divided by 256: two addresses lie in different
/// pages exactly when those quotients differ.
pub proof fn lemma_pages_differ_by_quotient(orig_addr: Word, new_addr: Word)
    ensures
        pages_differ(orig_addr, new_addr) <==> orig_addr / 256 != new_addr / 256,
{
    assert(((orig_addr & 0xFF00) != (new_addr & 0xFF00)) <==> (orig_addr / 256 != new_addr / 256))
        by (bit_vector);
}

/// Adding a byte offset to an address, with 16-bit wraparound, leaves the
/// page exactly when the sum of the address' low byte and the offset does
/// not fit in a byte.
pub proof fn lemma_page_crossed_by_offset(base: Word, offset: Byte)
    ensures
        pages_differ(base, base.wrapping_add(offset as Word)) <==> (base % 256) + offset >= 256,
{
    lemma_pages_differ_by_quotient(base, base.wrapping_add(offset as Word));
}

} // verus!
