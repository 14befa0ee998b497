//! The register file: seven 8-bit registers, the flags, and the 16-bit pairs
//! that are read and written through them.

use vstd::prelude::*;
use crate::bits::{high_byte, high_of, join, lemma_low_nibble_of_word, low_byte, low_of, pair};
use crate::flags::{lemma_byte_round_trip, lemma_flags_round_trip, FlagRegister};

verus! {

/// The name of an 8-bit register.
#[derive(Clone, Copy, Debug, PartialEq, Eq, Structural)]
pub enum Reg8 {
    A,
    B,
    C,
    D,
    E,
    H,
    L,
}

/// The registers of the CPU. A pair such as BC has no storage of its own: it is
/// B as the high byte and C as the low byte.
#[derive(Clone, Copy, Debug, PartialEq, Eq, Structural)]
pub struct Registers {
    pub a: u8,
    pub b: u8,
    pub c: u8,
    pub d: u8,
    pub e: u8,
    pub h: u8,
    pub l: u8,
    pub f: FlagRegister,
}

impl Registers {
    /// The value of the register named `reg`.
    pub open spec fn read(self, reg: Reg8) -> u8 {
        match reg {
            Reg8::A => self.a,
            Reg8::B => self.b,
            Reg8::C => self.c,
            Reg8::D => self.d,
            Reg8::E => self.e,
            Reg8::H => self.h,
            Reg8::L => self.l,
        }
    }

    /// These registers with `value` in the register named `reg`.
    pub open spec fn with(self, reg: Reg8, value: u8) -> Registers {
        match reg {
            Reg8::A => Registers { a: value, ..self },
            Reg8::B => Registers { b: value, ..self },
            Reg8::C => Registers { c: value, ..self },
            Reg8::D => Registers { d: value, ..self },
            Reg8::E => Registers { e: value, ..self },
            Reg8::H => Registers { h: value, ..self },
            Reg8::L => Registers { l: value, ..self },
        }
    }

    /// The pair AF: A as the high byte, the packed flags as the low byte.
    pub open spec fn af(self) -> u16 {
        pair(self.a, self.f.byte())
    }

    /// The pair BC.
    pub open spec fn bc(self) -> u16 {
        pair(self.b, self.c)
    }

    /// The pair DE.
    pub open spec fn de(self) -> u16 {
        pair(self.d, self.e)
    }

    /// The pair HL.
    pub open spec fn hl(self) -> u16 {
        pair(self.h, self.l)
    }

    /// These registers with `value` split over A and the flags. The low nibble
    /// of `value` is dropped.
    pub open spec fn with_af(self, value: u16) -> Registers {
        Registers { a: high_byte(value), f: FlagRegister::of_byte(low_byte(value)), ..self }
    }

    /// These registers with `value` split over B and C.
    pub open spec fn with_bc(self, value: u16) -> Registers {
        Registers { b: high_byte(value), c: low_byte(value), ..self }
    }

    /// These registers with `value` split over D and E.
    pub open spec fn with_de(self, value: u16) -> Registers {
        Registers { d: high_byte(value), e: low_byte(value), ..self }
    }

    /// These registers with `value` split over H and L.
    pub open spec fn with_hl(self, value: u16) -> Registers {
        Registers { h: high_byte(value), l: low_byte(value), ..self }
    }

    /// The registers as the boot ROM leaves them: A=0x01, F=0xB0, B=0x00,
    /// C=0x13, D=0x00, E=0xD8, H=0x01, L=0x4D.
    pub open spec fn power_on() -> Registers {
        Registers {
            a: 0x01,
            b: 0x00,
            c: 0x13,
            d: 0x00,
            e: 0xD8,
            h: 0x01,
            l: 0x4D,
            f: FlagRegister { zero: true, subtract: false, half_carry: true, carry: true },
        }
    }

    /// The registers in their state after the boot ROM.
    pub fn new() -> (registers: Registers)
        ensures
            registers == Registers::power_on(),
            registers.f.byte() == 0xB0,
    {
        Registers {
            a: 0x01,
            b: 0x00,
            c: 0x13,
            d: 0x00,
            e: 0xD8,
            h: 0x01,
            l: 0x4D,
            f: FlagRegister::from_byte(0xB0),
        }
    }

    /// Reads one 8-bit register.
    pub fn get(&self, reg: Reg8) -> (value: u8)
        ensures
            value == self.read(reg),
    {
        match reg {
            Reg8::A => self.a,
            Reg8::B => self.b,
            Reg8::C => self.c,
            Reg8::D => self.d,
            Reg8::E => self.e,
            Reg8::H => self.h,
            Reg8::L => self.l,
        }
    }

    /// Writes one 8-bit register and leaves the others and the flags alone.
    pub fn set(&mut self, reg: Reg8, value: u8)
        ensures
            *final(self) == old(self).with(reg, value),
    {
        match reg {
            Reg8::A => self.a = value,
            Reg8::B => self.b = value,
            Reg8::C => self.c = value,
            Reg8::D => self.d = value,
            Reg8::E => self.e = value,
            Reg8::H => self.h = value,
            Reg8::L => self.l = value,
        }
    }

    /// The flags as a packed byte; its low nibble is zero.
    pub fn flags_as_byte(&self) -> (byte: u8)
        ensures
            byte == self.f.byte(),
    {
        self.f.as_byte()
    }

    /// Sets the flags from the high nibble of `byte`; the low nibble is ignored.
    pub fn flags_from_byte(&mut self, byte: u8)
        ensures
            *final(self) == (Registers { f: FlagRegister::of_byte(byte), ..*old(self) }),
    {
        self.f = FlagRegister::from_byte(byte);
    }

    /// Reads the pair AF.
    pub fn get_af(&self) -> (value: u16)
        ensures
            value == self.af(),
    {
        join(self.a, self.f.as_byte())
    }

    /// Reads the pair BC.
    pub fn get_bc(&self) -> (value: u16)
        ensures
            value == self.bc(),
    {
        join(self.b, self.c)
    }

    /// Reads the pair DE.
    pub fn get_de(&self) -> (value: u16)
        ensures
            value == self.de(),
    {
        join(self.d, self.e)
    }

    /// Reads the pair HL.
    pub fn get_hl(&self) -> (value: u16)
        ensures
            value == self.hl(),
    {
        join(self.h, self.l)
    }

    /// Writes the pair AF: the high byte to A, the high nibble of the low byte
    /// to the flags.
    pub fn set_af(&mut self, value: u16)
        ensures
            *final(self) == old(self).with_af(value),
    {
        self.a = high_of(value);
        self.f = FlagRegister::from_byte(low_of(value));
    }

    /// Writes the pair BC: the high byte to B, the low byte to C.
    pub fn set_bc(&mut self, value: u16)
        ensures
            *final(self) == old(self).with_bc(value),
    {
        self.b = high_of(value);
        self.c = low_of(value);
    }

    /// Writes the pair DE: the high byte to D, the low byte to E.
    pub fn set_de(&mut self, value: u16)
        ensures
            *final(self) == old(self).with_de(value),
    {
        self.d = high_of(value);
        self.e = low_of(value);
    }

    /// Writes the pair HL: the high byte to H, the low byte to L.
    pub fn set_hl(&mut self, value: u16)
        ensures
            *final(self) == old(self).with_hl(value),
    {
        self.h = high_of(value);
        self.l = low_of(value);
    }
}

/// A pair that was written is the pair that is read, for BC, DE and HL alike,
/// and the registers outside the pair keep their values.
pub proof fn lemma_pair_round_trip(registers: Registers, value: u16)
    ensures
        registers.with_bc(value).bc() == value,
        registers.with_de(value).de() == value,
        registers.with_hl(value).hl() == value,
        registers.with_bc(value) == (Registers {
            b: high_byte(value),
            c: low_byte(value),
            ..registers
        }),
        registers.with_de(value) == (Registers {
            d: high_byte(value),
            e: low_byte(value),
            ..registers
        }),
        registers.with_hl(value) == (Registers {
            h: high_byte(value),
            l: low_byte(value),
            ..registers
        }),
{
}

/// A pair written with its own value changes no register, and that holds of
/// AF too, since the flags never hold a low nibble.
pub proof fn lemma_pair_write_back(registers: Registers)
    ensures
        registers.with_bc(registers.bc()) == registers,
        registers.with_de(registers.de()) == registers,
        registers.with_hl(registers.hl()) == registers,
        registers.with_af(registers.af()) == registers,
{
    lemma_flags_round_trip(registers.f);
    assert(low_byte(registers.af()) == registers.f.byte());
}

/// AF keeps the accumulator and the four flags of what was written to it; the
/// low nibble reads zero.
pub proof fn lemma_af_round_trip(registers: Registers, value: u16)
    ensures
        registers.with_af(value).af() == value - value % 16,
{
    lemma_byte_round_trip(low_byte(value));
    lemma_low_nibble_of_word(value);
}

/// A pair always agrees with the two registers that it is made of: writing
/// either register shows in the pair at once.
pub proof fn lemma_pair_follows_registers(registers: Registers, value: u8)
    ensures
        registers.with(Reg8::B, value).bc() == pair(value, registers.c),
        registers.with(Reg8::C, value).bc() == pair(registers.b, value),
        registers.with(Reg8::D, value).de() == pair(value, registers.e),
        registers.with(Reg8::E, value).de() == pair(registers.d, value),
        registers.with(Reg8::H, value).hl() == pair(value, registers.l),
        registers.with(Reg8::L, value).hl() == pair(registers.h, value),
{
}

/// Registers are independent: a write to one is read back from it and changes
/// the reading of no other.
pub proof fn lemma_register_independence(
    registers: Registers,
    written: Reg8,
    value: u8,
    other: Reg8,
)
    ensures
        registers.with(written, value).read(written) == value,
        other != written ==> registers.with(written, value).read(other) == registers.read(other),
        registers.with(written, value).f == registers.f,
{
}

} // verus!
