//! The arithmetic-logic unit: what each operation computes and which flags it
//! sets, stated over integers, and the operations themselves on the CPU.

use vstd::prelude::*;
use crate::bits::{
    bit_is_set, bit_weight, lemma_bit_ops, lemma_bit_ops_touch_one_bit, lemma_end_bits,
    lemma_exchange_nibbles, lemma_low_nibble, lemma_low_twelve_bits, lemma_move_low_bit,
    lemma_left_moves_bits, lemma_right_moves_bits, lemma_shift_left, lemma_shift_right,
};
use crate::cpu::{advance, CpuState, Reg16, CPU};
use crate::decode::{AluOp, ShiftOp};
use crate::flags::FlagRegister;
use crate::registers::Registers;

verus! {

/// What an 8-bit operation yields: the new value and the flags after it.
pub struct AluResult {
    pub value: u8,
    pub flags: FlagRegister,
}

/// What a 16-bit addition yields.
pub struct WideResult {
    pub value: u16,
    pub flags: FlagRegister,
}

/// A carry as a number: 1 if set, 0 if not.
pub open spec fn carry_value(carry: bool) -> int {
    if carry {
        1
    } else {
        0
    }
}

/// `value` as the result of a rotate or shift that moved `carry` out: Z by the
/// value, N and H clear.
pub open spec fn shifted(value: int, carry: bool) -> AluResult {
    AluResult {
        value: value as u8,
        flags: FlagRegister { zero: value == 0, subtract: false, half_carry: false, carry },
    }
}

/// `value` as the result of a logic operation: Z by the value, N and C clear.
pub open spec fn logic_result(value: u8, half_carry: bool) -> AluResult {
    AluResult {
        value,
        flags: FlagRegister { zero: value == 0, subtract: false, half_carry, carry: false },
    }
}

/// ADD and ADC: the sum of `a`, `n` and the carry that comes in, modulo 256.
/// H is the carry out of the low nibble of that sum of three, C the carry out
/// of the byte.
pub open spec fn add8(a: u8, n: u8, carry_in: bool) -> AluResult {
    let sum = a + n + carry_value(carry_in);
    AluResult {
        value: (sum % 256) as u8,
        flags: FlagRegister {
            zero: sum % 256 == 0,
            subtract: false,
            half_carry: a % 16 + n % 16 + carry_value(carry_in) > 15,
            carry: sum > 255,
        },
    }
}

/// SUB, SBC and CP: `a` less `n` and the carry that comes in, modulo 256. H is
/// the borrow into the low nibble, C the borrow into the byte.
pub open spec fn sub8(a: u8, n: u8, carry_in: bool) -> AluResult {
    let difference = a - n - carry_value(carry_in);
    AluResult {
        value: (difference % 256) as u8,
        flags: FlagRegister {
            zero: difference % 256 == 0,
            subtract: true,
            half_carry: a % 16 < n % 16 + carry_value(carry_in),
            carry: a < n + carry_value(carry_in),
        },
    }
}

/// AND: H is always set.
pub open spec fn and8(a: u8, n: u8) -> AluResult {
    logic_result(a & n, true)
}

/// OR.
pub open spec fn or8(a: u8, n: u8) -> AluResult {
    logic_result(a | n, false)
}

/// XOR.
pub open spec fn xor8(a: u8, n: u8) -> AluResult {
    logic_result(a ^ n, false)
}

/// INC: H says that the low nibble of the value before was 0xF. C stays.
pub open spec fn inc8(value: u8, flags: FlagRegister) -> AluResult {
    AluResult {
        value: ((value + 1) % 256) as u8,
        flags: FlagRegister {
            zero: (value + 1) % 256 == 0,
            subtract: false,
            half_carry: value % 16 == 15,
            carry: flags.carry,
        },
    }
}

/// DEC: H says that the low nibble of the value before was 0. C stays.
pub open spec fn dec8(value: u8, flags: FlagRegister) -> AluResult {
    AluResult {
        value: ((value - 1) % 256) as u8,
        flags: FlagRegister {
            zero: (value - 1) % 256 == 0,
            subtract: true,
            half_carry: value % 16 == 0,
            carry: flags.carry,
        },
    }
}

/// ADD HL,rr: the sum modulo 65536. H is the carry out of bit 11, C the carry
/// out of bit 15. Z stays.
pub open spec fn add16(hl: u16, n: u16, flags: FlagRegister) -> WideResult {
    WideResult {
        value: ((hl + n) % 65536) as u16,
        flags: FlagRegister {
            zero: flags.zero,
            subtract: false,
            half_carry: hl % 4096 + n % 4096 > 4095,
            carry: hl + n > 65535,
        },
    }
}

/// BIT: Z says that the bit is clear. H is set, C stays.
pub open spec fn bit_test(bit: u8, value: u8, flags: FlagRegister) -> FlagRegister {
    FlagRegister {
        zero: !bit_is_set(value, bit),
        subtract: false,
        half_carry: true,
        carry: flags.carry,
    }
}

/// RES: `value` with the bit clear.
pub open spec fn bit_reset(bit: u8, value: u8) -> u8 {
    if bit_is_set(value, bit) {
        (value - bit_weight(bit)) as u8
    } else {
        value
    }
}

/// SET: `value` with the bit set.
pub open spec fn bit_set(bit: u8, value: u8) -> u8 {
    if bit_is_set(value, bit) {
        value
    } else {
        (value + bit_weight(bit)) as u8
    }
}

/// SWAP: the two nibbles exchanged. C is clear.
pub open spec fn swap8(value: u8) -> AluResult {
    shifted((value % 16) * 16 + value / 16, false)
}

/// RLC: every bit moves up by one; bit 7 comes round to bit 0 and goes to C.
pub open spec fn rlc8(value: u8) -> AluResult {
    shifted((value * 2) % 256 + value / 128, value >= 128)
}

/// RRC: every bit moves down by one; bit 0 comes round to bit 7 and goes to C.
pub open spec fn rrc8(value: u8) -> AluResult {
    shifted(value / 2 + (value % 2) * 128, value % 2 == 1)
}

/// RL: every bit moves up by one; the carry that comes in fills bit 0, bit 7
/// goes to C.
pub open spec fn rl8(value: u8, carry_in: bool) -> AluResult {
    shifted((value * 2) % 256 + carry_value(carry_in), value >= 128)
}

/// RR: every bit moves down by one; the carry that comes in fills bit 7, bit 0
/// goes to C.
pub open spec fn rr8(value: u8, carry_in: bool) -> AluResult {
    shifted(value / 2 + carry_value(carry_in) * 128, value % 2 == 1)
}

/// SLA: every bit moves up by one; bit 0 is clear, bit 7 goes to C.
pub open spec fn sla8(value: u8) -> AluResult {
    shifted((value * 2) % 256, value >= 128)
}

/// SRA: every bit moves down by one; bit 7 keeps its value, bit 0 goes to C.
pub open spec fn sra8(value: u8) -> AluResult {
    shifted(value / 2 + (value / 128) * 128, value % 2 == 1)
}

/// SRL: every bit moves down by one; bit 7 is clear, bit 0 goes to C.
pub open spec fn srl8(value: u8) -> AluResult {
    shifted(value as int / 2, value % 2 == 1)
}

/// What an operation of the ALU on A and `n` yields. CP yields A as it was.
pub open spec fn alu_result(op: AluOp, a: u8, n: u8, flags: FlagRegister) -> AluResult {
    match op {
        AluOp::Add => add8(a, n, false),
        AluOp::Adc => add8(a, n, flags.carry),
        AluOp::Sub => sub8(a, n, false),
        AluOp::Sbc => sub8(a, n, flags.carry),
        AluOp::And => and8(a, n),
        AluOp::Xor => xor8(a, n),
        AluOp::Or => or8(a, n),
        AluOp::Cp => AluResult { value: a, flags: sub8(a, n, false).flags },
    }
}

/// What a rotate, shift or swap of `value` yields.
pub open spec fn shift_result(op: ShiftOp, value: u8, carry_in: bool) -> AluResult {
    match op {
        ShiftOp::Rlc => rlc8(value),
        ShiftOp::Rrc => rrc8(value),
        ShiftOp::Rl => rl8(value, carry_in),
        ShiftOp::Rr => rr8(value, carry_in),
        ShiftOp::Sla => sla8(value),
        ShiftOp::Sra => sra8(value),
        ShiftOp::Swap => swap8(value),
        ShiftOp::Srl => srl8(value),
    }
}

impl CpuState {
    /// This state with the value of `result` in A and its flags in F.
    pub open spec fn with_accumulator(self, result: AluResult) -> CpuState {
        self.with_registers(Registers { a: result.value, f: result.flags, ..self.registers })
    }

    /// The state after an operation of the ALU on A and `n`.
    pub open spec fn after_alu(self, op: AluOp, n: u8) -> CpuState {
        self.with_accumulator(alu_result(op, self.registers.a, n, self.registers.f))
    }

    /// The state after ADD HL,rr with the operand `n`.
    pub open spec fn after_add_hl(self, n: u16) -> CpuState {
        let sum = add16(self.registers.hl(), n, self.registers.f);
        self.with_registers(Registers { f: sum.flags, ..self.registers.with_hl(sum.value) })
    }
}

/// The remainder modulo 256 of a sum or difference of bytes and a carry, by
/// cases.
proof fn lemma_wrap(x: int)
    requires
        -256 <= x < 512,
    ensures
        x % 256 == (if x < 0 {
            x + 256
        } else if x < 256 {
            x
        } else {
            x - 256
        }),
{
}

impl CPU {
    /// ADC: adds `num` and the carry flag to A.
    pub fn adc(&mut self, num: u8)
        ensures
            final(self)@ == old(self)@.with_accumulator(
                add8(old(self).registers.a, num, old(self).registers.f.carry),
            ),
    {
        let a = self.registers.a;
        let carry: u8 = if self.registers.f.carry { 1 } else { 0 };
        proof {
            lemma_wrap(a + num);
            lemma_wrap(a + num + carry);
            lemma_low_nibble(a);
            lemma_low_nibble(num);
        }
        let result = a.wrapping_add(num).wrapping_add(carry);
        self.registers.f.zero = result == 0;
        self.registers.f.subtract = false;
        self.registers.f.half_carry = (a & 0xF) + (num & 0xF) + carry > 0xF;
        self.registers.f.carry = (a as u16) + (num as u16) + (carry as u16) > 0xFF;
        self.registers.a = result;
    }

    /// ADD: adds `num` to A.
    pub fn add(&mut self, num: u8)
        ensures
            final(self)@ == old(self)@.with_accumulator(add8(old(self).registers.a, num, false)),
    {
        let a = self.registers.a;
        proof {
            lemma_wrap(a + num);
            lemma_low_nibble(a);
            lemma_low_nibble(num);
        }
        let result = a.wrapping_add(num);
        self.registers.f.zero = result == 0;
        self.registers.f.subtract = false;
        self.registers.f.half_carry = (a & 0xF) + (num & 0xF) > 0xF;
        self.registers.f.carry = (a as u16) + (num as u16) > 0xFF;
        self.registers.a = result;
    }

    /// AND: A becomes A & `num`.
    pub fn and(&mut self, num: u8)
        ensures
            final(self)@ == old(self)@.with_accumulator(and8(old(self).registers.a, num)),
    {
        let result = self.registers.a & num;
        self.registers.f.zero = result == 0;
        self.registers.f.subtract = false;
        self.registers.f.half_carry = true;
        self.registers.f.carry = false;
        self.registers.a = result;
    }

    /// CP: sets the flags as SUB would and leaves A as it is.
    pub fn cp(&mut self, num: u8)
        ensures
            final(self)@ == old(self)@.with_flags(sub8(old(self).registers.a, num, false).flags),
            final(self).registers.a == old(self).registers.a,
    {
        let a = self.registers.a;
        proof {
            lemma_wrap(a - num);
            lemma_low_nibble(a);
            lemma_low_nibble(num);
        }
        let result = a.wrapping_sub(num);
        self.registers.f.zero = result == 0;
        self.registers.f.subtract = true;
        self.registers.f.half_carry = (a & 0x0F) < (num & 0x0F);
        self.registers.f.carry = a < num;
    }

    /// DEC: returns `num` less one, for the caller to store, and sets Z, N and H.
    pub fn dec(&mut self, num: u8) -> (result: u8)
        ensures
            result == dec8(num, old(self).registers.f).value,
            final(self)@ == old(self)@.with_flags(dec8(num, old(self).registers.f).flags),
    {
        proof {
            lemma_wrap(num - 1);
            lemma_low_nibble(num);
        }
        let result = num.wrapping_sub(1);
        self.registers.f.zero = result == 0;
        self.registers.f.subtract = true;
        self.registers.f.half_carry = (num & 0xF) == 0;
        result
    }

    /// INC: returns `num` plus one, for the caller to store, and sets Z, N and H.
    pub fn inc(&mut self, num: u8) -> (result: u8)
        ensures
            result == inc8(num, old(self).registers.f).value,
            final(self)@ == old(self)@.with_flags(inc8(num, old(self).registers.f).flags),
    {
        proof {
            lemma_wrap(num + 1);
            lemma_low_nibble(num);
        }
        let result = num.wrapping_add(1);
        self.registers.f.zero = result == 0;
        self.registers.f.subtract = false;
        self.registers.f.half_carry = (num & 0xF) == 0xF;
        result
    }

    /// OR: A becomes A | `num`.
    pub fn or(&mut self, num: u8)
        ensures
            final(self)@ == old(self)@.with_accumulator(or8(old(self).registers.a, num)),
    {
        let result = self.registers.a | num;
        self.registers.f.zero = result == 0;
        self.registers.f.subtract = false;
        self.registers.f.half_carry = false;
        self.registers.f.carry = false;
        self.registers.a = result;
    }

    /// SBC: subtracts `num` and the carry flag from A.
    pub fn sbc(&mut self, num: u8)
        ensures
            final(self)@ == old(self)@.with_accumulator(
                sub8(old(self).registers.a, num, old(self).registers.f.carry),
            ),
    {
        let a = self.registers.a;
        let carry: u8 = if self.registers.f.carry { 1 } else { 0 };
        proof {
            lemma_wrap(a - num);
            lemma_wrap(a - num - carry);
            lemma_low_nibble(a);
            lemma_low_nibble(num);
        }
        let result = a.wrapping_sub(num).wrapping_sub(carry);
        self.registers.f.zero = result == 0;
        self.registers.f.subtract = true;
        self.registers.f.half_carry = (a & 0xF) < (num & 0xF) + carry;
        self.registers.f.carry = (a as u16) < (num as u16) + (carry as u16);
        self.registers.a = result;
    }

    /// SUB: subtracts `num` from A.
    pub fn sub(&mut self, num: u8)
        ensures
            final(self)@ == old(self)@.with_accumulator(sub8(old(self).registers.a, num, false)),
    {
        let a = self.registers.a;
        proof {
            lemma_wrap(a - num);
            lemma_low_nibble(a);
            lemma_low_nibble(num);
        }
        let result = a.wrapping_sub(num);
        self.registers.f.zero = result == 0;
        self.registers.f.subtract = true;
        self.registers.f.half_carry = (a & 0xF) < (num & 0xF);
        self.registers.f.carry = a < num;
        self.registers.a = result;
    }

    /// XOR: A becomes A ^ `num`.
    pub fn xor(&mut self, num: u8)
        ensures
            final(self)@ == old(self)@.with_accumulator(xor8(old(self).registers.a, num)),
    {
        let result = self.registers.a ^ num;
        self.registers.f.zero = result == 0;
        self.registers.f.subtract = false;
        self.registers.f.half_carry = false;
        self.registers.f.carry = false;
        self.registers.a = result;
    }

    /// ADD HL,rr: adds `value` to HL. Z stays as it was.
    pub fn add_hl(&mut self, value: u16)
        ensures
            final(self)@ == old(self)@.after_add_hl(value),
    {
        let hl = self.registers.get_hl();
        let sum = hl.wrapping_add(value);
        proof {
            lemma_low_twelve_bits(hl);
            lemma_low_twelve_bits(value);
            assert(sum == add16(hl, value, self.registers.f).value);
        }
        self.registers.f.subtract = false;
        self.registers.f.half_carry = (hl & 0xFFF) + (value & 0xFFF) > 0xFFF;
        self.registers.f.carry = (hl as u32) + (value as u32) > 0xFFFF;
        self.registers.set_hl(sum);
    }

    /// INC rr: adds one to a 16-bit register, wrapping, and touches no flag.
    pub fn inc16(&mut self, target: Reg16)
        ensures
            final(self)@ == old(self)@.with16(target, advance(old(self)@.read16(target), 1)),
    {
        let value = self.get16(target);
        self.set16(target, value.wrapping_add(1));
    }

    /// DEC rr: takes one from a 16-bit register, wrapping, and touches no flag.
    pub fn dec16(&mut self, target: Reg16)
        ensures
            final(self)@ == old(self)@.with16(target, advance(old(self)@.read16(target), -1)),
    {
        let value = self.get16(target);
        self.set16(target, value.wrapping_sub(1));
    }

    /// BIT: tests bit `bit` of `val`. Z is set if the bit is clear.
    pub fn bit(&mut self, bit: u8, val: u8)
        requires
            bit < 8,
        ensures
            final(self)@ == old(self)@.with_flags(bit_test(bit, val, old(self).registers.f)),
    {
        proof {
            lemma_bit_ops(val, bit);
        }
        self.registers.f.zero = val & (1u8 << bit) == 0;
        self.registers.f.subtract = false;
        self.registers.f.half_carry = true;
    }

    /// RES: returns `val` with bit `bit` clear. No flag changes.
    pub fn res(&self, bit: u8, val: u8) -> (result: u8)
        requires
            bit < 8,
        ensures
            result == bit_reset(bit, val),
    {
        proof {
            lemma_bit_ops(val, bit);
        }
        val & !(1u8 << bit)
    }

    /// SET: returns `val` with bit `bit` set. No flag changes.
    pub fn set(&self, bit: u8, val: u8) -> (result: u8)
        requires
            bit < 8,
        ensures
            result == bit_set(bit, val),
    {
        proof {
            lemma_bit_ops(val, bit);
        }
        val | (1u8 << bit)
    }

    /// Sets the flags after a rotate, shift or swap that gave `result` and moved
    /// `carry` out.
    fn set_shift_flags(&mut self, result: u8, carry: bool)
        ensures
            final(self)@ == old(self)@.with_flags(shifted(result as int, carry).flags),
    {
        self.registers.f.zero = result == 0;
        self.registers.f.subtract = false;
        self.registers.f.half_carry = false;
        self.registers.f.carry = carry;
    }

    /// SWAP: returns `val` with its nibbles exchanged.
    pub fn swap(&mut self, val: u8) -> (result: u8)
        ensures
            result == swap8(val).value,
            final(self)@ == old(self)@.with_flags(swap8(val).flags),
    {
        proof {
            lemma_exchange_nibbles(val);
        }
        let result = (val << 4) | (val >> 4);
        self.set_shift_flags(result, false);
        result
    }

    /// RLC: rotates `val` left; bit 7 goes to bit 0 and to C.
    pub fn rlc(&mut self, val: u8) -> (result: u8)
        ensures
            result == rlc8(val).value,
            final(self)@ == old(self)@.with_flags(rlc8(val).flags),
    {
        proof {
            lemma_end_bits(val);
            lemma_shift_left(val, val >> 7);
        }
        let result = (val << 1) | (val >> 7);
        self.set_shift_flags(result, val & 0x80 != 0);
        result
    }

    /// RRC: rotates `val` right; bit 0 goes to bit 7 and to C.
    pub fn rrc(&mut self, val: u8) -> (result: u8)
        ensures
            result == rrc8(val).value,
            final(self)@ == old(self)@.with_flags(rrc8(val).flags),
    {
        proof {
            lemma_end_bits(val);
            lemma_move_low_bit(val);
            lemma_shift_right(val, val << 7);
        }
        let result = (val >> 1) | (val << 7);
        self.set_shift_flags(result, val & 0x01 != 0);
        result
    }

    /// RL: rotates `val` left through the carry flag.
    pub fn rl(&mut self, val: u8) -> (result: u8)
        ensures
            result == rl8(val, old(self).registers.f.carry).value,
            final(self)@ == old(self)@.with_flags(rl8(val, old(self).registers.f.carry).flags),
    {
        let carry: u8 = if self.registers.f.carry { 1 } else { 0 };
        proof {
            lemma_end_bits(val);
            lemma_shift_left(val, carry);
        }
        let result = (val << 1) | carry;
        self.set_shift_flags(result, val & 0x80 != 0);
        result
    }

    /// RR: rotates `val` right through the carry flag.
    pub fn rr(&mut self, val: u8) -> (result: u8)
        ensures
            result == rr8(val, old(self).registers.f.carry).value,
            final(self)@ == old(self)@.with_flags(rr8(val, old(self).registers.f.carry).flags),
    {
        let carry: u8 = if self.registers.f.carry { 0x80 } else { 0 };
        proof {
            lemma_end_bits(val);
            lemma_shift_right(val, carry);
        }
        let result = (val >> 1) | carry;
        self.set_shift_flags(result, val & 0x01 != 0);
        result
    }

    /// SLA: shifts `val` left; bit 0 becomes 0, bit 7 goes to C.
    pub fn sla(&mut self, val: u8) -> (result: u8)
        ensures
            result == sla8(val).value,
            final(self)@ == old(self)@.with_flags(sla8(val).flags),
    {
        proof {
            lemma_end_bits(val);
            lemma_shift_left(val, 0);
        }
        let result = val << 1;
        self.set_shift_flags(result, val & 0x80 != 0);
        result
    }

    /// SRA: shifts `val` right and keeps bit 7 as it was; bit 0 goes to C.
    pub fn sra(&mut self, val: u8) -> (result: u8)
        ensures
            result == sra8(val).value,
            final(self)@ == old(self)@.with_flags(sra8(val).flags),
    {
        proof {
            lemma_end_bits(val);
            lemma_shift_right(val, val & 0x80);
        }
        let result = (val >> 1) | (val & 0x80);
        self.set_shift_flags(result, val & 0x01 != 0);
        result
    }

    /// SRL: shifts `val` right; bit 7 becomes 0, bit 0 goes to C.
    pub fn srl(&mut self, val: u8) -> (result: u8)
        ensures
            result == srl8(val).value,
            final(self)@ == old(self)@.with_flags(srl8(val).flags),
    {
        proof {
            lemma_end_bits(val);
            lemma_shift_right(val, 0);
        }
        let result = val >> 1;
        self.set_shift_flags(result, val & 0x01 != 0);
        result
    }

    /// Performs the operation `op` of the ALU on A and `num`.
    pub fn alu(&mut self, op: AluOp, num: u8)
        ensures
            final(self)@ == old(self)@.after_alu(op, num),
    {
        match op {
            AluOp::Add => self.add(num),
            AluOp::Adc => self.adc(num),
            AluOp::Sub => self.sub(num),
            AluOp::Sbc => self.sbc(num),
            AluOp::And => self.and(num),
            AluOp::Xor => self.xor(num),
            AluOp::Or => self.or(num),
            AluOp::Cp => self.cp(num),
        }
    }

    /// Performs the rotate, shift or swap `op` on `val` and returns the new value.
    pub fn shift(&mut self, op: ShiftOp, val: u8) -> (result: u8)
        ensures
            result == shift_result(op, val, old(self).registers.f.carry).value,
            final(self)@ == old(self)@.with_flags(
                shift_result(op, val, old(self).registers.f.carry).flags,
            ),
    {
        match op {
            ShiftOp::Rlc => self.rlc(val),
            ShiftOp::Rrc => self.rrc(val),
            ShiftOp::Rl => self.rl(val),
            ShiftOp::Rr => self.rr(val),
            ShiftOp::Sla => self.sla(val),
            ShiftOp::Sra => self.sra(val),
            ShiftOp::Swap => self.swap(val),
            ShiftOp::Srl => self.srl(val),
        }
    }
}

/// Adding a number to a byte modulo 256 and taking it away again modulo 256
/// gives the byte, and so the other way round.
proof fn lemma_wrapping_inverse(a: int, n: int)
    requires
        0 <= a < 256,
        0 <= n <= 256,
    ensures
        ((a + n) % 256 - n) % 256 == a,
        ((a - n) % 256 + n) % 256 == a,
{
}

/// ADD of `b` and then SUB of `b` gives A as it was, whatever the flags were
/// and are. So does ADC and then SBC with the same carry coming in.
pub proof fn lemma_add_then_sub_restores(state: CpuState, b: u8, carry_in: bool)
    ensures
        sub8(add8(state.registers.a, b, false).value, b, false).value == state.registers.a,
        sub8(add8(state.registers.a, b, carry_in).value, b, carry_in).value == state.registers.a,
        state.after_alu(AluOp::Add, b).after_alu(AluOp::Sub, b).registers.a == state.registers.a,
{
    lemma_wrapping_inverse(state.registers.a as int, b as int);
    lemma_wrapping_inverse(state.registers.a as int, b + carry_value(carry_in));
}

/// SUB of `b` and then ADD of `b` gives A as it was.
pub proof fn lemma_sub_then_add_restores(state: CpuState, b: u8)
    ensures
        add8(sub8(state.registers.a, b, false).value, b, false).value == state.registers.a,
        state.after_alu(AluOp::Sub, b).after_alu(AluOp::Add, b).registers.a == state.registers.a,
{
    lemma_wrapping_inverse(state.registers.a as int, b as int);
}

/// The carry of ADC is a carry of either of its two additions: of `n` to `a`,
/// or of the carry that came in to their sum.
pub proof fn lemma_adc_carry_is_chained(a: u8, n: u8, carry_in: bool)
    ensures
        add8(a, n, carry_in).flags.carry == (a + n > 255 || add8(a, n, false).value + carry_value(
            carry_in,
        ) > 255),
{
}

/// Z says in every result of an 8-bit operation that the value is zero.
pub proof fn lemma_zero_flag_follows_value(
    a: u8,
    n: u8,
    flags: FlagRegister,
    op: AluOp,
    shift: ShiftOp,
)
    ensures
        op != AluOp::Cp ==> alu_result(op, a, n, flags).flags.zero == (alu_result(
            op,
            a,
            n,
            flags,
        ).value == 0),
        alu_result(AluOp::Cp, a, n, flags).flags.zero == (a == n),
        shift_result(shift, a, flags.carry).flags.zero == (shift_result(
            shift,
            a,
            flags.carry,
        ).value == 0),
        inc8(a, flags).flags.zero == (inc8(a, flags).value == 0),
        dec8(a, flags).flags.zero == (dec8(a, flags).value == 0),
{
}

/// CP sets the flags that SUB sets, and yields A as it was.
pub proof fn lemma_cp_is_sub_without_store(a: u8, n: u8, flags: FlagRegister)
    ensures
        alu_result(AluOp::Cp, a, n, flags).flags == alu_result(AluOp::Sub, a, n, flags).flags,
        alu_result(AluOp::Cp, a, n, flags).value == a,
{
}

/// INC and DEC undo each other, and neither changes C.
pub proof fn lemma_inc_dec_inverse(value: u8, flags: FlagRegister)
    ensures
        dec8(inc8(value, flags).value, flags).value == value,
        inc8(dec8(value, flags).value, flags).value == value,
        inc8(value, flags).flags.carry == flags.carry,
        dec8(value, flags).flags.carry == flags.carry,
{
}

proof fn lemma_left_then_right(value: int, low: int)
    requires
        0 <= value < 256,
        0 <= low <= 1,
    ensures
        0 <= (value * 2) % 256 + low < 256,
        ((value * 2) % 256 + low) / 2 == value % 128,
        ((value * 2) % 256 + low) % 2 == low,
        value % 128 + (value / 128) * 128 == value,
        0 <= value / 128 <= 1,
{
}

proof fn lemma_right_then_left(value: int, top: int)
    requires
        0 <= value < 256,
        0 <= top <= 1,
    ensures
        0 <= value / 2 + top * 128 < 256,
        ((value / 2 + top * 128) * 2) % 256 == (value / 2) * 2,
        (value / 2 + top * 128) / 128 == top,
        (value / 2) * 2 + value % 2 == value,
        0 <= value % 2 <= 1,
{
}

/// A rotate to one side undoes the rotate to the other, for the rotates round
/// the byte and for those through the carry.
pub proof fn lemma_rotates_invert(value: u8, carry_in: bool)
    ensures
        rrc8(rlc8(value).value).value == value,
        rlc8(rrc8(value).value).value == value,
        rr8(rl8(value, carry_in).value, rl8(value, carry_in).flags.carry).value == value,
        rr8(rl8(value, carry_in).value, rl8(value, carry_in).flags.carry).flags.carry == carry_in,
        rl8(rr8(value, carry_in).value, rr8(value, carry_in).flags.carry).value == value,
        rl8(rr8(value, carry_in).value, rr8(value, carry_in).flags.carry).flags.carry == carry_in,
{
    let carry = carry_value(carry_in);
    assert(rrc8(rlc8(value).value).value == value) by {
        lemma_left_then_right(value as int, value as int / 128);
    }
    assert(rlc8(rrc8(value).value).value == value) by {
        lemma_right_then_left(value as int, value as int % 2);
    }
    assert(rr8(rl8(value, carry_in).value, rl8(value, carry_in).flags.carry).value == value
        && rr8(rl8(value, carry_in).value, rl8(value, carry_in).flags.carry).flags.carry
        == carry_in) by {
        lemma_left_then_right(value as int, carry);
    }
    assert(rl8(rr8(value, carry_in).value, rr8(value, carry_in).flags.carry).value == value
        && rl8(rr8(value, carry_in).value, rr8(value, carry_in).flags.carry).flags.carry
        == carry_in) by {
        lemma_right_then_left(value as int, carry);
    }
}

/// SWAP undoes itself.
pub proof fn lemma_swap_inverts(value: u8)
    ensures
        swap8(swap8(value).value).value == value,
{
    let low = value as int % 16;
    let high = value as int / 16;
    assert(value == high * 16 + low);
    let swapped = low * 16 + high;
    assert(swapped % 16 == high && swapped / 16 == low);
}

/// Bit by bit: a rotate or shift to the left moves each bit up by one. Into
/// bit 0 RLC brings bit 7, RL the carry that comes in, and SLA a zero. Bit 7
/// goes to C.
pub proof fn lemma_left_shifts_move_bits(value: u8, bit: u8, carry_in: bool)
    requires
        bit < 7,
    ensures
        bit_is_set(rlc8(value).value, (bit + 1) as u8) == bit_is_set(value, bit),
        bit_is_set(rl8(value, carry_in).value, (bit + 1) as u8) == bit_is_set(value, bit),
        bit_is_set(sla8(value).value, (bit + 1) as u8) == bit_is_set(value, bit),
        bit_is_set(rlc8(value).value, 0) == bit_is_set(value, 7),
        bit_is_set(rl8(value, carry_in).value, 0) == carry_in,
        !bit_is_set(sla8(value).value, 0),
        rlc8(value).flags.carry == bit_is_set(value, 7),
        rl8(value, carry_in).flags.carry == bit_is_set(value, 7),
        sla8(value).flags.carry == bit_is_set(value, 7),
{
    let top = value / 128;
    let carry = carry_value(carry_in) as u8;
    lemma_shift_left(value, top);
    lemma_shift_left(value, carry);
    lemma_shift_left(value, 0);
    lemma_left_moves_bits(value, top, bit);
    lemma_left_moves_bits(value, carry, bit);
    lemma_left_moves_bits(value, 0, bit);
}

/// Bit by bit: a rotate or shift to the right moves each bit down by one.
/// Into bit 7 RRC brings bit 0, RR the carry that comes in, SRL a zero, and
/// SRA bit 7 as it was. Bit 0 goes to C.
pub proof fn lemma_right_shifts_move_bits(value: u8, bit: u8, carry_in: bool)
    requires
        bit < 7,
    ensures
        bit_is_set(rrc8(value).value, bit) == bit_is_set(value, (bit + 1) as u8),
        bit_is_set(rr8(value, carry_in).value, bit) == bit_is_set(value, (bit + 1) as u8),
        bit_is_set(sra8(value).value, bit) == bit_is_set(value, (bit + 1) as u8),
        bit_is_set(srl8(value).value, bit) == bit_is_set(value, (bit + 1) as u8),
        bit_is_set(rrc8(value).value, 7) == bit_is_set(value, 0),
        bit_is_set(rr8(value, carry_in).value, 7) == carry_in,
        bit_is_set(sra8(value).value, 7) == bit_is_set(value, 7),
        !bit_is_set(srl8(value).value, 7),
        rrc8(value).flags.carry == bit_is_set(value, 0),
        rr8(value, carry_in).flags.carry == bit_is_set(value, 0),
        sra8(value).flags.carry == bit_is_set(value, 0),
        srl8(value).flags.carry == bit_is_set(value, 0),
{
    let low = ((value % 2) * 128) as u8;
    let carry = (carry_value(carry_in) * 128) as u8;
    let sign = ((value / 128) * 128) as u8;
    lemma_shift_right(value, low);
    lemma_shift_right(value, carry);
    lemma_shift_right(value, sign);
    lemma_shift_right(value, 0);
    lemma_right_moves_bits(value, low, bit);
    lemma_right_moves_bits(value, carry, bit);
    lemma_right_moves_bits(value, sign, bit);
    lemma_right_moves_bits(value, 0, bit);
}

/// SET sets its bit, RES clears it, and both leave every other bit as it was.
/// BIT reports in Z what they left.
pub proof fn lemma_bit_unit(value: u8, bit: u8, other: u8, flags: FlagRegister)
    requires
        bit < 8,
        other < 8,
    ensures
        bit_is_set(bit_set(bit, value), other) == (other == bit || bit_is_set(value, other)),
        bit_is_set(bit_reset(bit, value), other) == (other != bit && bit_is_set(value, other)),
        !bit_test(bit, bit_set(bit, value), flags).zero,
        bit_test(bit, bit_reset(bit, value), flags).zero,
{
    lemma_bit_ops(value, bit);
    lemma_bit_ops_touch_one_bit(value, bit, other);
    lemma_bit_ops_touch_one_bit(value, bit, bit);
}

} // verus!
