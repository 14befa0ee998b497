//! The status flags of the CPU and their packed byte form.

use vstd::prelude::*;
use crate::bits::{lemma_flag_bits, lemma_flag_masks};

verus! {

/// The four status flags, kept as booleans. The packed byte is derived from them
/// on demand and never stored.
#[derive(Clone, Copy, Debug, PartialEq, Eq, Structural)]
pub struct FlagRegister {
    /// Z: the last result was zero.
    pub zero: bool,
    /// N: the last operation was a subtraction.
    pub subtract: bool,
    /// H: carry or borrow out of the low nibble.
    pub half_carry: bool,
    /// C: carry or borrow out of the whole value.
    pub carry: bool,
}

impl FlagRegister {
    /// The packed byte: Z is worth 128, N 64, H 32 and C 16; the low nibble is zero.
    pub open spec fn byte(self) -> u8 {
        ((if self.zero { 128int } else { 0 })
            + (if self.subtract { 64int } else { 0 })
            + (if self.half_carry { 32int } else { 0 })
            + (if self.carry { 16int } else { 0 })) as u8
    }

    /// The flags that a byte stands for: one flag for each of its four high bits.
    /// The low nibble has no say.
    pub open spec fn of_byte(byte: u8) -> FlagRegister {
        FlagRegister {
            zero: byte / 128 == 1,
            subtract: (byte / 64) % 2 == 1,
            half_carry: (byte / 32) % 2 == 1,
            carry: (byte / 16) % 2 == 1,
        }
    }

    /// Packs the flags into a byte: Z in bit 7, N in bit 6, H in bit 5, C in bit 4.
    pub fn as_byte(&self) -> (byte: u8)
        ensures
            byte == self.byte(),
            byte % 16 == 0,
    {
        let z: u8 = if self.zero { 0x80 } else { 0 };
        let n: u8 = if self.subtract { 0x40 } else { 0 };
        let h: u8 = if self.half_carry { 0x20 } else { 0 };
        let c: u8 = if self.carry { 0x10 } else { 0 };
        proof {
            lemma_flag_bits(self.zero, self.subtract, self.half_carry, self.carry);
        }
        z | n | h | c
    }

    /// Reads the flags out of a packed byte. Bits 0 to 3 are ignored.
    pub fn from_byte(byte: u8) -> (flags: FlagRegister)
        ensures
            flags == FlagRegister::of_byte(byte),
    {
        proof {
            lemma_flag_masks(byte);
        }
        FlagRegister {
            zero: byte & 0x80 != 0,
            subtract: byte & 0x40 != 0,
            half_carry: byte & 0x20 != 0,
            carry: byte & 0x10 != 0,
        }
    }
}

/// Packing any flags into a byte and reading the byte back gives the same flags.
pub proof fn lemma_flags_round_trip(flags: FlagRegister)
    ensures
        FlagRegister::of_byte(flags.byte()) == flags,
{
}

/// Reading a byte as flags and packing them again keeps the high nibble and
/// clears the low one.
pub proof fn lemma_byte_round_trip(byte: u8)
    ensures
        FlagRegister::of_byte(byte).byte() == byte - byte % 16,
{
}

} // verus!
