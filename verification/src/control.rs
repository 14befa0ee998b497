//! The control unit: the stack, jumps, calls and returns.

use vstd::prelude::*;
use crate::bits::{high_byte, high_of, low_byte, low_of};
use crate::bus::word_at;
use crate::cpu::{advance, CpuState, CPU};

verus! {

impl CpuState {
    /// The state after a push of `value`: its high byte is stored just below
    /// the stack pointer, its low byte below that, and the stack pointer has
    /// moved down by two.
    pub open spec fn after_push(self, value: u16) -> CpuState {
        CpuState {
            sp: advance(self.sp, -2),
            memory: self.memory.update(advance(self.sp, -1) as int, high_byte(value)).update(
                advance(self.sp, -2) as int,
                low_byte(value),
            ),
            ..self
        }
    }

    /// The word on top of the stack: low byte at the stack pointer, high byte
    /// above it.
    pub open spec fn top_of_stack(self) -> u16 {
        word_at(self.memory, self.sp)
    }

    /// The state after a pop: the stack pointer has moved up by two.
    pub open spec fn after_pop(self) -> CpuState {
        CpuState { sp: advance(self.sp, 2), ..self }
    }

    /// The state after a relative jump: the program counter moved by `offset`,
    /// forwards or backwards.
    pub open spec fn after_relative_jump(self, offset: int) -> CpuState {
        self.with_pc(advance(self.pc, offset))
    }

    /// The state after a call: the program counter is pushed, then set to `addr`.
    pub open spec fn after_call(self, addr: u16) -> CpuState {
        self.after_push(self.pc).with_pc(addr)
    }

    /// The state after a return: the word on top of the stack is popped into
    /// the program counter.
    pub open spec fn after_return(self) -> CpuState {
        self.after_pop().with_pc(self.top_of_stack())
    }
}

impl CPU {
    /// Pushes `value`: high byte at SP-1, low byte at SP-2, then SP becomes SP-2.
    pub fn push(&mut self, value: u16)
        ensures
            final(self)@ == old(self)@.after_push(value),
    {
        self.bus.write_byte(self.sp.wrapping_sub(1), high_of(value));
        self.bus.write_byte(self.sp.wrapping_sub(2), low_of(value));
        self.sp = self.sp.wrapping_sub(2);
    }

    /// Pops a word: low byte at SP, high byte at SP+1, then SP becomes SP+2.
    pub fn pop(&mut self) -> (value: u16)
        ensures
            value == old(self)@.top_of_stack(),
            final(self)@ == old(self)@.after_pop(),
    {
        let value = self.bus.read_word(self.sp);
        self.sp = self.sp.wrapping_add(2);
        value
    }

    /// JP: continues at `addr`.
    pub fn jp(&mut self, addr: u16)
        ensures
            final(self)@ == old(self)@.with_pc(addr),
    {
        self.pc = addr;
    }

    /// JP cc: continues at `addr` if `cond` holds, and changes nothing if not.
    pub fn jp_cond(&mut self, cond: bool, addr: u16)
        ensures
            final(self)@ == (if cond { old(self)@.with_pc(addr) } else { old(self)@ }),
    {
        if cond {
            self.jp(addr);
        }
    }

    /// JR: moves the program counter by a signed offset.
    pub fn jr(&mut self, offset: i8)
        ensures
            final(self)@ == old(self)@.after_relative_jump(offset as int),
    {
        self.pc = self.pc.wrapping_add_signed(offset as i16);
    }

    /// JR cc: moves the program counter by `offset` if `cond` holds, and changes
    /// nothing if not.
    pub fn jr_cond(&mut self, cond: bool, offset: i8)
        ensures
            final(self)@ == (if cond {
                old(self)@.after_relative_jump(offset as int)
            } else {
                old(self)@
            }),
    {
        if cond {
            self.jr(offset);
        }
    }

    /// CALL: pushes the program counter, which is the address of the next
    /// instruction, and continues at `addr`.
    pub fn call(&mut self, addr: u16)
        ensures
            final(self)@ == old(self)@.after_call(addr),
    {
        self.push(self.pc);
        self.pc = addr;
    }

    /// CALL cc: calls `addr` if `cond` holds. If not, nothing is pushed and
    /// nothing changes.
    pub fn call_cond(&mut self, cond: bool, addr: u16)
        ensures
            final(self)@ == (if cond { old(self)@.after_call(addr) } else { old(self)@ }),
    {
        if cond {
            self.call(addr);
        }
    }

    /// RET: pops the program counter.
    pub fn ret(&mut self)
        ensures
            final(self)@ == old(self)@.after_return(),
    {
        self.pc = self.pop();
    }

    /// RET cc: returns if `cond` holds, and changes nothing if not.
    pub fn ret_cond(&mut self, cond: bool)
        ensures
            final(self)@ == (if cond { old(self)@.after_return() } else { old(self)@ }),
    {
        if cond {
            self.ret();
        }
    }

    /// RST: pushes the program counter and continues at `addr`. Any address is
    /// taken, not only the eight restart vectors.
    pub fn rst(&mut self, addr: u16)
        ensures
            final(self)@ == old(self)@.after_call(addr),
    {
        self.push(self.pc);
        self.pc = addr;
    }
}

/// A pushed word is the word that the next pop returns, and the pair leaves
/// the stack pointer where it was.
pub proof fn lemma_push_pop_round_trip(state: CpuState, value: u16)
    requires
        state.well_formed(),
    ensures
        state.after_push(value).top_of_stack() == value,
        state.after_push(value).after_pop().sp == state.sp,
        state.after_push(value).after_pop().pc == state.pc,
        state.after_push(value).after_pop().registers == state.registers,
{
}

/// A push writes the two bytes below the stack pointer and no other.
pub proof fn lemma_push_frame(state: CpuState, value: u16, addr: u16)
    requires
        state.well_formed(),
        addr != advance(state.sp, -1),
        addr != advance(state.sp, -2),
    ensures
        state.after_push(value).memory[addr as int] == state.memory[addr as int],
        state.after_push(value).well_formed(),
{
}

/// A return after a call continues behind the call, with the stack pointer
/// where it was before the call.
pub proof fn lemma_call_return_round_trip(state: CpuState, addr: u16)
    requires
        state.well_formed(),
    ensures
        state.after_call(addr).after_return().pc == state.pc,
        state.after_call(addr).after_return().sp == state.sp,
        state.after_call(addr).after_return().registers == state.registers,
{
}

} // verus!
