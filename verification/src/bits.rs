//! Bit-level access to register values.

use bit_field::BitField;
use vstd::prelude::*;

verus! {

/// The bits `start..=end` of `value`, moved down to bit 0: the bits above
/// `end` are shifted out at the top, then those below `start` at the bottom.
pub open spec fn bit_range(value: usize, start: usize, end: usize) -> usize {
    let drop = (usize::BITS - (end + 1)) as usize;
    ((value << drop) >> drop) >> start
}

/// Calls `bit_field::BitField::get_bit` on a `usize`: whether bit number `bit`
/// of `value` is set, bit 0 being the least significant. The outside function
/// panics on a bit number beyond the word.
#[verifier::external_body]
pub(crate) fn get_bit(value: usize, bit: usize) -> (r: bool)
    requires
        bit < usize::BITS,
    ensures
        r == (value & (1usize << bit) != 0),
{
    value.get_bit(bit)
}

/// Calls `bit_field::BitField::get_bits` on a `usize` with the inclusive range
/// `start..=end`: the outside function shifts the bits above `end` out at the
/// top, shifts back, and then shifts the bits below `start` out at the bottom.
/// It panics on a range that leaves the word.
#[verifier::external_body]
pub(crate) fn get_bits(value: usize, start: usize, end: usize) -> (r: usize)
    requires
        start <= end < usize::BITS,
    ensures
        r == bit_range(value, start, end),
{
    value.get_bits(start..=end)
}

/// Testing bit `n` of a word is masking it with `2^n`, for the low bits that
/// the control registers use.
pub proof fn lemma_single_bits(value: usize)
    by (bit_vector)
    ensures
        value & (1usize << 0usize) == value & 0x1,
        value & (1usize << 1usize) == value & 0x2,
        value & (1usize << 4usize) == value & 0x10,
        value & (1usize << 5usize) == value & 0x20,
{
}

/// A field of a word, as `bit_range` gives it, is the word shifted down to
/// the field's first bit and masked to the field's width.
pub proof fn lemma_bit_range_is_shift_and_mask(value: usize)
    by (bit_vector)
    ensures
        bit_range(value, 2, 3) == (value >> 2usize) & 0x3,
        bit_range(value, 8, 15) == (value >> 8usize) & 0xff,
        (value >> 2usize) & 0x3 <= 0x3,
        (value >> 8usize) & 0xff <= 0xff,
{
}

/// Bit `bit` of the word `a | b` is set where it is set in `a` or in `b`,
/// and bit `bit` of `a & !b` where it is set in `a` and not in `b`.
pub proof fn lemma_combined_bit(a: u32, b: u32, bit: u32)
    by (bit_vector)
    requires
        bit < 32,
    ensures
        ((a | b) & (1u32 << bit) != 0) == (a & (1u32 << bit) != 0 || b & (1u32 << bit) != 0),
        ((a & !b) & (1u32 << bit) != 0) == (a & (1u32 << bit) != 0 && b & (1u32 << bit) == 0),
{
}

/// Two single bits of a 32-bit word meet only where they are the same bit.
pub proof fn lemma_single_bit_meets_itself(bit: u32, other: u32)
    by (bit_vector)
    requires
        bit < 32,
        other < 32,
    ensures
        ((1u32 << bit) & (1u32 << other) != 0) == (bit == other),
        0u32 & (1u32 << other) == 0,
{
}

/// Replacing one byte of a 32-bit word gives a word whose byte at that
/// place is the new one and whose other bytes are as before.
pub proof fn lemma_replace_byte(word: u32, byte: u32, shift: u32, other: u32)
    by (bit_vector)
    requires
        byte <= 0xff,
        shift == 0 || shift == 8 || shift == 16 || shift == 24,
        other == 0 || other == 8 || other == 16 || other == 24,
    ensures
        (((word & !(0xffu32 << shift)) | (byte << shift)) >> other) & 0xff == if other == shift {
            byte
        } else {
            (word >> other) & 0xff
        },
        (word >> other) & 0xff <= 0xff,
{
}

/// Setting or clearing the lowest bit of a 32-bit word leaves the bits
/// above it.
pub proof fn lemma_lowest_bit(word: u32)
    by (bit_vector)
    ensures
        (word | 0x1) & 0x1 != 0,
        (word | 0x1) & !0x1u32 == word & !0x1u32,
        word & 0xffff_fffe == word & !0x1u32,
        (word & !0x1u32) & 0x1 == 0,
        (word & !0x1u32) & !0x1u32 == word & !0x1u32,
{
}

/// A byte placed above the low 24 bits of an address is read back from the
/// top byte of the word, and the low 24 bits are read back below it.
pub proof fn lemma_top_byte(byte: u32, address: u32)
    by (bit_vector)
    requires
        byte <= 0xff,
    ensures
        ((byte << 24u32) | (address & 0x00ff_ffff)) >> 24u32 == byte,
        ((byte << 24u32) | (address & 0x00ff_ffff)) & 0x00ff_ffff == address & 0x00ff_ffff,
        (address & 0x00ff_ffff) >> 24u32 == 0,
        (address & 0x00ff_ffff) & 0x00ff_ffff == address & 0x00ff_ffff,
        address >> 24u32 <= 0xff,
{
}

/// Setting bit 3 of a 32-bit word sets it, clearing it clears it.
pub proof fn lemma_bit_three(word: u32)
    by (bit_vector)
    ensures
        (word | 0x8) & 0x8 != 0,
        (word & !0x8u32) & 0x8 == 0,
{
}

/// The upper 32 bits of a 64-bit value.
pub open spec fn high_half(value: u64) -> u32 {
    (value / 0x1_0000_0000) as u32
}

/// The lower 32 bits of a 64-bit value.
pub open spec fn low_half(value: u64) -> u32 {
    (value % 0x1_0000_0000) as u32
}

/// A 64-bit value put together from two 32-bit halves is the upper half
/// times 2^32 plus the lower half, and is taken apart into the same halves.
pub proof fn lemma_halves(high: u32, low: u32, value: u64)
    by (bit_vector)
    ensures
        (high as u64) << 32u64 | (low as u64) == high as u64 * 0x1_0000_0000 + low as u64,
        (value >> 32u64) <= 0xffff_ffff,
        (value >> 32u64) == value / 0x1_0000_0000,
        value as u32 == value % 0x1_0000_0000,
{
}

/// The upper 32 bits of `value`.
pub fn upper_word(value: u64) -> (word: u32)
    ensures
        word == high_half(value),
{
    proof {
        lemma_halves(0, 0, value);
    }
    (value >> 32) as u32
}

/// The lower 32 bits of `value`.
pub fn lower_word(value: u64) -> (word: u32)
    ensures
        word == low_half(value),
{
    proof {
        lemma_halves(0, 0, value);
    }
    value as u32
}

/// The 64-bit value whose upper 32 bits are `high` and whose lower 32 bits
/// are `low`.
pub fn join_words(high: u32, low: u32) -> (value: u64)
    ensures
        value == high * 0x1_0000_0000 + low,
        high_half(value) == high,
        low_half(value) == low,
{
    proof {
        lemma_halves(high, low, 0);
    }
    (high as u64) << 32 | low as u64
}

} // verus!
