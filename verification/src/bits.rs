//! Bytes, bits and words as numbers: the arithmetic reading of the shifts and
//! masks that the engine is written with, each proved once.

use vstd::prelude::*;

verus! {

/// The 16-bit value whose high byte is `high` and whose low byte is `low`.
pub open spec fn pair(high: u8, low: u8) -> u16 {
    (high * 256 + low) as u16
}

/// The high byte of a 16-bit value.
pub open spec fn high_byte(value: u16) -> u8 {
    (value / 256) as u8
}

/// The low byte of a 16-bit value.
pub open spec fn low_byte(value: u16) -> u8 {
    (value % 256) as u8
}

/// A byte read as a signed number in two's complement: -128 to 127.
pub open spec fn signed(byte: u8) -> int {
    if byte < 128 {
        byte as int
    } else {
        byte - 256
    }
}

/// The weight of bit `bit` of a byte: 1, 2, 4, ... 128.
pub open spec fn bit_weight(bit: u8) -> int {
    if bit == 0 {
        1
    } else if bit == 1 {
        2
    } else if bit == 2 {
        4
    } else if bit == 3 {
        8
    } else if bit == 4 {
        16
    } else if bit == 5 {
        32
    } else if bit == 6 {
        64
    } else {
        128
    }
}

/// `value` without its bits below `bit`: `value` divided by the weight of
/// that bit.
pub open spec fn bits_from(value: u8, bit: u8) -> int {
    if bit == 0 {
        value as int
    } else if bit == 1 {
        value as int / 2
    } else if bit == 2 {
        value as int / 4
    } else if bit == 3 {
        value as int / 8
    } else if bit == 4 {
        value as int / 16
    } else if bit == 5 {
        value as int / 32
    } else if bit == 6 {
        value as int / 64
    } else {
        value as int / 128
    }
}

/// Whether bit `bit` of `value` is set.
pub open spec fn bit_is_set(value: u8, bit: u8) -> bool {
    bits_from(value, bit) % 2 == 1
}

/// Composes a 16-bit value from its two bytes.
pub fn join(high: u8, low: u8) -> (value: u16)
    ensures
        value == pair(high, low),
{
    proof {
        lemma_join(high, low);
    }
    ((high as u16) << 8) | (low as u16)
}

/// The high byte of a 16-bit value.
pub fn high_of(value: u16) -> (high: u8)
    ensures
        high == high_byte(value),
{
    proof {
        lemma_split(value);
    }
    (value >> 8) as u8
}

/// The low byte of a 16-bit value.
pub fn low_of(value: u16) -> (low: u8)
    ensures
        low == low_byte(value),
{
    proof {
        lemma_split(value);
    }
    (value & 0xFF) as u8
}

/// Reads a byte as a signed number in two's complement.
pub fn to_signed(byte: u8) -> (offset: i8)
    ensures
        offset == signed(byte),
{
    proof {
        lemma_signed(byte);
    }
    #[verifier::truncate]
    (byte as i8)
}

/// A shift by eight and an OR compose a word from its bytes.
pub proof fn lemma_join(high: u8, low: u8)
    by (bit_vector)
    ensures
        ((high as u16) << 8) | (low as u16) == high * 256 + low,
{
}

/// A shift by eight and a mask split a word into its bytes.
pub proof fn lemma_split(value: u16)
    by (bit_vector)
    ensures
        value >> 8 == value / 256,
        value & 0xFF == value % 256,
{
}

/// The cast of a byte to `i8` reads it in two's complement.
pub proof fn lemma_signed(byte: u8)
    by (bit_vector)
    ensures
        byte as i8 == (if byte < 128 {
            byte as int
        } else {
            byte - 256
        }),
{
}

/// Each of the four flag masks tests one bit of the high nibble.
pub proof fn lemma_flag_masks(byte: u8)
    by (bit_vector)
    ensures
        (byte & 0x80 != 0) == (byte / 128 == 1),
        (byte & 0x40 != 0) == ((byte / 64) % 2 == 1),
        (byte & 0x20 != 0) == ((byte / 32) % 2 == 1),
        (byte & 0x10 != 0) == ((byte / 16) % 2 == 1),
{
}

/// The OR of the four flag bits is their sum.
pub proof fn lemma_flag_bits(z: bool, n: bool, h: bool, c: bool)
    by (bit_vector)
    ensures
        (if z { 0x80u8 } else { 0 }) | (if n { 0x40u8 } else { 0 }) | (if h { 0x20u8 } else { 0 })
            | (if c { 0x10u8 } else { 0 }) == (if z { 128int } else { 0 }) + (if n { 64int } else { 0 })
            + (if h { 32int } else { 0 }) + (if c { 16int } else { 0 }),
{
}

/// The mask 0xF keeps the low nibble.
pub proof fn lemma_low_nibble(value: u8)
    by (bit_vector)
    ensures
        value & 0xF == value % 16,
{
}

/// The low nibble of a word is the low nibble of its low byte.
pub proof fn lemma_low_nibble_of_word(value: u16)
    by (bit_vector)
    ensures
        (value % 256) % 16 == value % 16,
        (value / 256) * 256 + value % 256 == value,
{
}

/// The mask 0xFFF keeps the low twelve bits.
pub proof fn lemma_low_twelve_bits(value: u16)
    by (bit_vector)
    ensures
        value & 0xFFF == value % 4096,
{
}

/// Bit 7 and bit 0 of a byte, by mask and by shift.
pub proof fn lemma_end_bits(value: u8)
    by (bit_vector)
    ensures
        (value & 0x80 != 0) == (value >= 128),
        (value & 0x01 != 0) == (value % 2 == 1),
        value >> 7 == value / 128,
        value & 0x80 == (value / 128) * 128,
{
}

/// A shift to the left by one doubles modulo 256; a bit ORed into the free
/// place is added.
pub proof fn lemma_shift_left(value: u8, low: u8)
    by (bit_vector)
    requires
        low <= 1,
    ensures
        value << 1 == (value * 2) % 256,
        (value << 1) | low == (value * 2) % 256 + low,
{
}

/// A shift to the right by one halves; a bit ORed into the free place is
/// added.
pub proof fn lemma_shift_right(value: u8, top: u8)
    by (bit_vector)
    requires
        top == 0 || top == 0x80,
    ensures
        value >> 1 == value / 2,
        (value >> 1) | top == value / 2 + top,
{
}

/// A shift to the left by seven leaves bit 0 alone, in bit 7.
pub proof fn lemma_move_low_bit(value: u8)
    by (bit_vector)
    ensures
        value << 7 == (value % 2) * 128,
{
}

/// Two shifts by four and an OR exchange the nibbles.
pub proof fn lemma_exchange_nibbles(value: u8)
    by (bit_vector)
    ensures
        (value << 4) | (value >> 4) == (value % 16) * 16 + value / 16,
{
}

/// With the mask of one bit, AND tests the bit, OR sets it and AND-NOT
/// clears it.
pub proof fn lemma_bit_ops(value: u8, bit: u8)
    by (bit_vector)
    requires
        bit < 8,
    ensures
        (value & (1u8 << bit) != 0) == bit_is_set(value, bit),
        value | (1u8 << bit) == (if bit_is_set(value, bit) {
            value as int
        } else {
            value + bit_weight(bit)
        }),
        value & !(1u8 << bit) == (if bit_is_set(value, bit) {
            value - bit_weight(bit)
        } else {
            value as int
        }),
{
}

/// Setting or clearing one bit leaves the other bits as they were.
pub proof fn lemma_bit_ops_touch_one_bit(value: u8, bit: u8, other: u8)
    by (bit_vector)
    requires
        bit < 8,
        other < 8,
    ensures
        bit_is_set(value | (1u8 << bit), other) == (other == bit || bit_is_set(value, other)),
        bit_is_set(value & !(1u8 << bit), other) == (other != bit && bit_is_set(value, other)),
{
}

/// A shift to the left by one moves each bit up by one place.
pub proof fn lemma_left_moves_bits(value: u8, low: u8, bit: u8)
    by (bit_vector)
    requires
        low <= 1,
        bit < 7,
    ensures
        bit_is_set((value << 1) | low, (bit + 1) as u8) == bit_is_set(value, bit),
        bit_is_set((value << 1) | low, 0) == (low == 1),
{
}

/// A shift to the right by one moves each bit down by one place.
pub proof fn lemma_right_moves_bits(value: u8, top: u8, bit: u8)
    by (bit_vector)
    requires
        top == 0 || top == 0x80,
        bit < 7,
    ensures
        bit_is_set((value >> 1) | top, bit) == bit_is_set(value, (bit + 1) as u8),
        bit_is_set((value >> 1) | top, 7) == (top == 0x80),
{
}

/// The three fields of an opcode, by shift and mask.
pub proof fn lemma_opcode_fields(byte: u8)
    by (bit_vector)
    ensures
        byte >> 6 == byte / 64,
        (byte >> 3) & 7 == (byte / 8) % 8,
        byte & 7 == byte % 8,
{
}

} // verus!
