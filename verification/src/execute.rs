//! The fetch-decode-execute cycle: what each instruction does to the machine,
//! and the step that fetches one opcode and carries its instruction out.

use vstd::prelude::*;
use crate::alu::{bit_reset, bit_set, bit_test, dec8, inc8, shift_result};
use crate::bits::{signed, to_signed};
use crate::cpu::{advance, CpuState, CPU};
use crate::control::lemma_push_pop_round_trip;
use crate::decode::{
    decoded, lemma_opcode_is_decoded, Condition, Instruction, Opcode, Operand8,
    StackPair, EXTENDED_PREFIX,
};
use crate::registers::{lemma_pair_write_back, Reg8};

verus! {

/// Why a step could not be carried out.
#[derive(Clone, Copy, Debug, PartialEq, Eq, Structural)]
pub enum CpuError {
    /// No handler is assigned to the opcode that was fetched.
    UnsupportedOpcode(Opcode),
    /// An address outside the bus. The bus of this engine covers every
    /// address, so the engine never reports this.
    AddressOutOfRange,
}

impl CpuState {
    /// The value of an 8-bit operand.
    pub open spec fn operand(self, operand: Operand8) -> u8 {
        match operand {
            Operand8::Register(reg) => self.registers.read(reg),
            Operand8::HlIndirect => self.memory[self.registers.hl() as int],
        }
    }

    /// This state with `value` in an 8-bit operand.
    pub open spec fn with_operand(self, operand: Operand8, value: u8) -> CpuState {
        match operand {
            Operand8::Register(reg) => self.with_registers(self.registers.with(reg, value)),
            Operand8::HlIndirect => self.with_byte(self.registers.hl(), value),
        }
    }

    /// Whether a condition holds of the flags.
    pub open spec fn holds(self, condition: Condition) -> bool {
        match condition {
            Condition::NotZero => !self.registers.f.zero,
            Condition::Zero => self.registers.f.zero,
            Condition::NotCarry => !self.registers.f.carry,
            Condition::Carry => self.registers.f.carry,
        }
    }

    /// The value of a pair that PUSH reads.
    pub open spec fn stack_pair(self, pair: StackPair) -> u16 {
        match pair {
            StackPair::BC => self.registers.bc(),
            StackPair::DE => self.registers.de(),
            StackPair::HL => self.registers.hl(),
            StackPair::AF => self.registers.af(),
        }
    }

    /// This state with `value` in a pair that POP writes.
    pub open spec fn with_stack_pair(self, pair: StackPair, value: u16) -> CpuState {
        match pair {
            StackPair::BC => self.with_registers(self.registers.with_bc(value)),
            StackPair::DE => self.with_registers(self.registers.with_de(value)),
            StackPair::HL => self.with_registers(self.registers.with_hl(value)),
            StackPair::AF => self.with_registers(self.registers.with_af(value)),
        }
    }

    /// The state after `instruction`, from the state in which the program
    /// counter is just past its opcode. An instruction with immediate operands
    /// reads them at the program counter and moves the program counter past
    /// them, whether or not its condition holds.
    pub open spec fn after(self, instruction: Instruction) -> CpuState {
        match instruction {
            Instruction::Nop => self,
            Instruction::Load { dst, src } => self.with_operand(dst, self.operand(src)),
            Instruction::LoadImmediate { dst } => self.skip(1).with_operand(dst, self.immediate8()),
            Instruction::LoadImmediate16 { dst } => self.skip(2).with16(dst, self.immediate16()),
            Instruction::Alu { op, src } => self.after_alu(op, self.operand(src)),
            Instruction::AluImmediate { op } => self.skip(1).after_alu(op, self.immediate8()),
            Instruction::Inc { target } => {
                let result = inc8(self.operand(target), self.registers.f);
                self.with_flags(result.flags).with_operand(target, result.value)
            },
            Instruction::Dec { target } => {
                let result = dec8(self.operand(target), self.registers.f);
                self.with_flags(result.flags).with_operand(target, result.value)
            },
            Instruction::Inc16 { target } => self.with16(target, advance(self.read16(target), 1)),
            Instruction::Dec16 { target } => self.with16(target, advance(self.read16(target), -1)),
            Instruction::AddHl { src } => self.after_add_hl(self.read16(src)),
            Instruction::Jump => self.with_pc(self.immediate16()),
            Instruction::JumpIf { condition } => if self.holds(condition) {
                self.with_pc(self.immediate16())
            } else {
                self.skip(2)
            },
            Instruction::JumpRelative => self.skip(1).after_relative_jump(
                signed(self.immediate8()),
            ),
            Instruction::JumpRelativeIf { condition } => if self.holds(condition) {
                self.skip(1).after_relative_jump(signed(self.immediate8()))
            } else {
                self.skip(1)
            },
            Instruction::Call => self.skip(2).after_call(self.immediate16()),
            Instruction::CallIf { condition } => if self.holds(condition) {
                self.skip(2).after_call(self.immediate16())
            } else {
                self.skip(2)
            },
            Instruction::Return => self.after_return(),
            Instruction::ReturnIf { condition } => if self.holds(condition) {
                self.after_return()
            } else {
                self
            },
            Instruction::Restart { vector } => self.after_call(vector as u16),
            Instruction::Push { pair } => self.after_push(self.stack_pair(pair)),
            Instruction::Pop { pair } => self.after_pop().with_stack_pair(
                pair,
                self.top_of_stack(),
            ),
            Instruction::Shift { op, target } => {
                let result = shift_result(op, self.operand(target), self.registers.f.carry);
                self.with_flags(result.flags).with_operand(target, result.value)
            },
            Instruction::TestBit { bit, target } => self.with_flags(
                bit_test(bit, self.operand(target), self.registers.f),
            ),
            Instruction::ResetBit { bit, target } => self.with_operand(
                target,
                bit_reset(bit, self.operand(target)),
            ),
            Instruction::SetBit { bit, target } => self.with_operand(
                target,
                bit_set(bit, self.operand(target)),
            ),
        }
    }

    /// The opcode that the next step fetches: the byte at the program counter,
    /// or, behind the lead-in byte 0xCB, the byte after it.
    pub open spec fn next_opcode(self) -> Opcode {
        if self.immediate8() == EXTENDED_PREFIX {
            Opcode { byte: self.skip(1).immediate8(), extended: true }
        } else {
            Opcode { byte: self.immediate8(), extended: false }
        }
    }

    /// The state after one step. Where no handler is assigned to the opcode,
    /// the program counter has moved past the opcode byte and nothing else has
    /// changed.
    pub open spec fn after_step(self) -> CpuState {
        let opcode = self.next_opcode();
        match decoded(opcode) {
            Some(instruction) => self.skip(if opcode.extended { 2 } else { 1 }).after(instruction),
            None => self.skip(1),
        }
    }

    /// What one step returns: the opcode that was carried out, or the opcode
    /// to which no handler is assigned.
    pub open spec fn step_result(self) -> Result<Opcode, CpuError> {
        let opcode = self.next_opcode();
        if decoded(opcode) is Some {
            Ok(opcode)
        } else {
            Err(CpuError::UnsupportedOpcode(opcode))
        }
    }
}

impl CPU {
    /// Reads an 8-bit operand: a register, or the byte at the address in HL.
    pub fn read_operand(&self, operand: Operand8) -> (value: u8)
        ensures
            value == self@.operand(operand),
    {
        match operand {
            Operand8::Register(reg) => self.registers.get(reg),
            Operand8::HlIndirect => self.bus.read_byte(self.registers.get_hl()),
        }
    }

    /// Writes an 8-bit operand: a register, or the byte at the address in HL.
    pub fn write_operand(&mut self, operand: Operand8, value: u8)
        ensures
            final(self)@ == old(self)@.with_operand(operand, value),
    {
        match operand {
            Operand8::Register(reg) => self.registers.set(reg, value),
            Operand8::HlIndirect => self.bus.write_byte(self.registers.get_hl(), value),
        }
    }

    /// Whether a condition holds of the flags.
    pub fn condition_holds(&self, condition: Condition) -> (holds: bool)
        ensures
            holds == self@.holds(condition),
    {
        match condition {
            Condition::NotZero => !self.registers.f.zero,
            Condition::Zero => self.registers.f.zero,
            Condition::NotCarry => !self.registers.f.carry,
            Condition::Carry => self.registers.f.carry,
        }
    }

    /// Reads a pair for PUSH.
    pub fn get_stack_pair(&self, pair: StackPair) -> (value: u16)
        ensures
            value == self@.stack_pair(pair),
    {
        match pair {
            StackPair::BC => self.registers.get_bc(),
            StackPair::DE => self.registers.get_de(),
            StackPair::HL => self.registers.get_hl(),
            StackPair::AF => self.registers.get_af(),
        }
    }

    /// Writes a pair for POP. Written to AF, the low nibble of `value` is lost.
    pub fn set_stack_pair(&mut self, pair: StackPair, value: u16)
        ensures
            final(self)@ == old(self)@.with_stack_pair(pair, value),
    {
        match pair {
            StackPair::BC => self.registers.set_bc(value),
            StackPair::DE => self.registers.set_de(value),
            StackPair::HL => self.registers.set_hl(value),
            StackPair::AF => self.registers.set_af(value),
        }
    }

    /// Carries out one decoded instruction. The program counter is just past
    /// the opcode; the handler reads the immediate operands and leaves the
    /// program counter at the next opcode.
    pub fn execute(&mut self, instruction: Instruction)
        requires
            instruction.is_valid(),
        ensures
            final(self)@ == old(self)@.after(instruction),
    {
        match instruction {
            Instruction::Nop => {},
            Instruction::Load { dst, src } => {
                let value = self.read_operand(src);
                self.write_operand(dst, value);
            },
            Instruction::LoadImmediate { dst } => {
                let value = self.fetch_byte();
                self.write_operand(dst, value);
            },
            Instruction::LoadImmediate16 { dst } => {
                let value = self.fetch_word();
                self.set16(dst, value);
            },
            Instruction::Alu { op, src } => {
                let value = self.read_operand(src);
                self.alu(op, value);
            },
            Instruction::AluImmediate { op } => {
                let value = self.fetch_byte();
                self.alu(op, value);
            },
            Instruction::Inc { target } => {
                let value = self.read_operand(target);
                let result = self.inc(value);
                self.write_operand(target, result);
            },
            Instruction::Dec { target } => {
                let value = self.read_operand(target);
                let result = self.dec(value);
                self.write_operand(target, result);
            },
            Instruction::Inc16 { target } => self.inc16(target),
            Instruction::Dec16 { target } => self.dec16(target),
            Instruction::AddHl { src } => {
                let value = self.get16(src);
                self.add_hl(value);
            },
            Instruction::Jump => {
                let addr = self.fetch_word();
                self.jp(addr);
            },
            Instruction::JumpIf { condition } => {
                let addr = self.fetch_word();
                let cond = self.condition_holds(condition);
                self.jp_cond(cond, addr);
            },
            Instruction::JumpRelative => {
                let offset = to_signed(self.fetch_byte());
                self.jr(offset);
            },
            Instruction::JumpRelativeIf { condition } => {
                let offset = to_signed(self.fetch_byte());
                let cond = self.condition_holds(condition);
                self.jr_cond(cond, offset);
            },
            Instruction::Call => {
                let addr = self.fetch_word();
                self.call(addr);
            },
            Instruction::CallIf { condition } => {
                let addr = self.fetch_word();
                let cond = self.condition_holds(condition);
                self.call_cond(cond, addr);
            },
            Instruction::Return => self.ret(),
            Instruction::ReturnIf { condition } => {
                let cond = self.condition_holds(condition);
                self.ret_cond(cond);
            },
            Instruction::Restart { vector } => self.rst(vector as u16),
            Instruction::Push { pair } => {
                let value = self.get_stack_pair(pair);
                self.push(value);
            },
            Instruction::Pop { pair } => {
                let value = self.pop();
                self.set_stack_pair(pair, value);
            },
            Instruction::Shift { op, target } => {
                let value = self.read_operand(target);
                let result = self.shift(op, value);
                self.write_operand(target, result);
            },
            Instruction::TestBit { bit, target } => {
                let value = self.read_operand(target);
                self.bit(bit, value);
            },
            Instruction::ResetBit { bit, target } => {
                let value = self.read_operand(target);
                let result = self.res(bit, value);
                self.write_operand(target, result);
            },
            Instruction::SetBit { bit, target } => {
                let value = self.read_operand(target);
                let result = self.set(bit, value);
                self.write_operand(target, result);
            },
        }
    }

    /// Performs one fetch-decode-execute cycle.
    ///
    /// Returns the opcode that was carried out. Where no handler is assigned
    /// to the opcode, returns `UnsupportedOpcode` with it, and the machine is
    /// as it was but for the program counter, which has moved past the opcode
    /// byte.
    pub fn step(&mut self) -> (result: Result<Opcode, CpuError>)
        ensures
            result == old(self)@.step_result(),
            final(self)@ == old(self)@.after_step(),
    {
        let first = self.fetch_byte();
        let opcode = if first == EXTENDED_PREFIX {
            Opcode { byte: self.fetch_byte(), extended: true }
        } else {
            Opcode { byte: first, extended: false }
        };
        match self.dispatch.lookup(opcode) {
            Some(instruction) => {
                self.execute(instruction);
                Ok(opcode)
            },
            None => Err(CpuError::UnsupportedOpcode(opcode)),
        }
    }
}

impl Instruction {
    /// The number of immediate operand bytes that follow the opcode.
    pub open spec fn operand_bytes(self) -> int {
        match self {
            Instruction::LoadImmediate { .. }
            | Instruction::AluImmediate { .. }
            | Instruction::JumpRelative
            | Instruction::JumpRelativeIf { .. } => 1,
            Instruction::LoadImmediate16 { .. }
            | Instruction::Jump
            | Instruction::JumpIf { .. }
            | Instruction::Call
            | Instruction::CallIf { .. } => 2,
            _ => 0,
        }
    }

    /// Whether this instruction is a jump, call or return under a condition.
    pub open spec fn is_conditional(self) -> bool {
        self is JumpIf || self is JumpRelativeIf || self is CallIf || self is ReturnIf
    }

    /// Whether this instruction sets the program counter in `state`: a jump,
    /// call, return or restart, if it has no condition or its condition holds.
    pub open spec fn transfers_control(self, state: CpuState) -> bool {
        match self {
            Instruction::Jump
            | Instruction::JumpRelative
            | Instruction::Call
            | Instruction::Return
            | Instruction::Restart { .. } => true,
            Instruction::JumpIf { condition }
            | Instruction::JumpRelativeIf { condition }
            | Instruction::CallIf { condition }
            | Instruction::ReturnIf { condition } => state.holds(condition),
            _ => false,
        }
    }
}

/// Every handler consumes its operands: unless the instruction sets the
/// program counter, it leaves the program counter behind its immediate
/// operands, at the next opcode. A conditional instruction whose condition
/// does not hold does that and nothing else.
pub proof fn lemma_operands_are_consumed(state: CpuState, instruction: Instruction)
    requires
        state.well_formed(),
        !instruction.transfers_control(state),
    ensures
        state.after(instruction).pc == advance(state.pc, instruction.operand_bytes()),
        instruction.is_conditional() ==> state.after(instruction) == state.skip(
            instruction.operand_bytes(),
        ),
{
}

/// A write to an operand, a push and a pop keep the size of the memory.
proof fn lemma_parts_keep_size(state: CpuState, operand: Operand8, value: u8, word: u16)
    requires
        state.well_formed(),
    ensures
        state.with_operand(operand, value).well_formed(),
        state.after_push(word).well_formed(),
        state.after_pop().well_formed(),
        state.after_call(word).well_formed(),
        state.after_return().well_formed(),
{
}

/// No instruction changes the size of the memory.
pub proof fn lemma_memory_size_is_kept(state: CpuState, instruction: Instruction)
    requires
        state.well_formed(),
    ensures
        state.after(instruction).well_formed(),
{
    let hl = Operand8::HlIndirect;
    match instruction {
        Instruction::Load { dst, src } => {
            lemma_parts_keep_size(state, dst, state.operand(src), 0);
        },
        Instruction::LoadImmediate { dst } => {
            lemma_parts_keep_size(state.skip(1), dst, state.immediate8(), 0);
        },
        Instruction::Inc { target } => {
            let result = inc8(state.operand(target), state.registers.f);
            lemma_parts_keep_size(state.with_flags(result.flags), target, result.value, 0);
        },
        Instruction::Dec { target } => {
            let result = dec8(state.operand(target), state.registers.f);
            lemma_parts_keep_size(state.with_flags(result.flags), target, result.value, 0);
        },
        Instruction::Call | Instruction::CallIf { .. } => {
            lemma_parts_keep_size(state.skip(2), hl, 0, state.immediate16());
        },
        Instruction::Return | Instruction::ReturnIf { .. } | Instruction::Pop { .. } => {
            lemma_parts_keep_size(state, hl, 0, 0);
        },
        Instruction::Restart { vector } => {
            lemma_parts_keep_size(state, hl, 0, vector as u16);
        },
        Instruction::Push { pair } => {
            lemma_parts_keep_size(state, hl, 0, state.stack_pair(pair));
        },
        Instruction::Shift { op, target } => {
            let result = shift_result(op, state.operand(target), state.registers.f.carry);
            lemma_parts_keep_size(state.with_flags(result.flags), target, result.value, 0);
        },
        Instruction::ResetBit { bit, target } => {
            lemma_parts_keep_size(state, target, bit_reset(bit, state.operand(target)), 0);
        },
        Instruction::SetBit { bit, target } => {
            lemma_parts_keep_size(state, target, bit_set(bit, state.operand(target)), 0);
        },
        _ => {},
    }
}

/// No step changes the size of the memory.
pub proof fn lemma_step_keeps_memory_size(state: CpuState)
    requires
        state.well_formed(),
    ensures
        state.after_step().well_formed(),
{
    let opcode = state.next_opcode();
    match decoded(opcode) {
        Some(next) => {
            lemma_memory_size_is_kept(state.skip(if opcode.extended { 2int } else { 1int }), next);
        },
        None => {},
    }
}

/// A conditional call whose condition does not hold moves the program counter
/// past the operand and changes neither the stack pointer nor the memory. One
/// whose condition holds pushes the address behind the operand and continues
/// at the operand.
pub proof fn lemma_conditional_call(state: CpuState, condition: Condition)
    requires
        state.well_formed(),
    ensures
        !state.holds(condition) ==> state.after(Instruction::CallIf { condition }) == state.skip(2),
        state.holds(condition) ==> ({
            let called = state.after(Instruction::CallIf { condition });
            &&& called.pc == state.immediate16()
            &&& called.sp == advance(state.sp, -2)
            &&& called.top_of_stack() == advance(state.pc, 2)
            &&& called.registers == state.registers
        }),
{
}

/// A return after a call continues behind the operand of the call.
pub proof fn lemma_call_then_return(state: CpuState)
    requires
        state.well_formed(),
    ensures
        state.after(Instruction::Call).after(Instruction::Return).pc == advance(state.pc, 2),
        state.after(Instruction::Call).after(Instruction::Return).sp == state.sp,
{
}

/// What PUSH stored, POP loads into the same pair, and the stack pointer is
/// where it was. For AF that holds of A and of the four flags.
pub proof fn lemma_push_then_pop(state: CpuState, pair: StackPair)
    requires
        state.well_formed(),
    ensures
        state.after(Instruction::Push { pair }).after(Instruction::Pop { pair }).registers
            == state.registers,
        state.after(Instruction::Push { pair }).after(Instruction::Pop { pair }).sp == state.sp,
{
    let value = state.stack_pair(pair);
    lemma_push_pop_round_trip(state, value);
    lemma_pair_write_back(state.registers);
    assert(state.after(Instruction::Push { pair }) == state.after_push(value));
    assert(state.after_push(value).top_of_stack() == value);
}

/// A step on an opcode without a handler reports that opcode, which is one
/// of the base table, and changes nothing but the program counter, which it
/// moves past the opcode byte.
pub proof fn lemma_unsupported_opcode_only_fetches(state: CpuState)
    requires
        state.well_formed(),
        state.step_result() is Err,
    ensures
        state.step_result() == Err::<Opcode, CpuError>(
            CpuError::UnsupportedOpcode(Opcode { byte: state.immediate8(), extended: false }),
        ),
        state.after_step() == state.with_pc(advance(state.pc, 1)),
        decoded(Opcode { byte: state.immediate8(), extended: false }) is None,
{
}

/// A step on a supported opcode reports it and carries out the instruction
/// that it decodes to, from the state behind the opcode.
pub proof fn lemma_supported_opcode_is_carried_out(state: CpuState, instruction: Instruction)
    requires
        state.well_formed(),
        instruction.is_valid(),
        state.next_opcode() == instruction.opcode(),
    ensures
        state.step_result() == Ok::<Opcode, CpuError>(instruction.opcode()),
        state.after_step() == state.skip(if instruction.opcode().extended { 2 } else { 1 }).after(
            instruction,
        ),
{
    lemma_opcode_is_decoded(instruction);
}

/// A step on LD r,n loads the byte behind the opcode into the register and
/// leaves the program counter behind that byte. Nothing else changes.
pub proof fn lemma_step_loads_immediate(state: CpuState, reg: Reg8)
    requires
        state.well_formed(),
        state.next_opcode() == (Instruction::LoadImmediate {
            dst: Operand8::Register(reg),
        }).opcode(),
    ensures
        state.after_step() == state.skip(2).with_registers(
            state.registers.with(reg, state.skip(1).immediate8()),
        ),
        state.after_step().registers.read(reg) == state.memory[advance(state.pc, 1) as int],
        state.after_step().pc == advance(state.pc, 2),
{
    let instruction = Instruction::LoadImmediate { dst: Operand8::Register(reg) };
    lemma_supported_opcode_is_carried_out(state, instruction);
    assert(!instruction.opcode().extended);
    assert(state.skip(1).skip(1) == state.skip(2));
}

/// A step on CALL cc,nn whose condition does not hold leaves the program
/// counter behind the three bytes of the instruction and changes nothing
/// else. A step on one whose condition holds pushes that address and
/// continues at the operand.
pub proof fn lemma_step_calls_on_condition(state: CpuState, condition: Condition)
    requires
        state.well_formed(),
        state.next_opcode() == (Instruction::CallIf { condition }).opcode(),
    ensures
        !state.holds(condition) ==> state.after_step() == state.skip(3),
        state.holds(condition) ==> ({
            let called = state.after_step();
            &&& called.pc == state.skip(1).immediate16()
            &&& called.sp == advance(state.sp, -2)
            &&& called.top_of_stack() == advance(state.pc, 3)
            &&& called.registers == state.registers
        }),
{
    let instruction = Instruction::CallIf { condition };
    lemma_supported_opcode_is_carried_out(state, instruction);
    lemma_conditional_call(state.skip(1), condition);
    assert(!instruction.opcode().extended);
    assert(state.skip(1).skip(2) == state.skip(3));
    assert(advance(state.skip(1).pc, 2) == advance(state.pc, 3));
}

} // verus!
