//! The CPU: registers, program counter, stack pointer and bus, owned together,
//! and the mathematical state that the contracts of every operation speak of.

use vstd::prelude::*;
use crate::bus::{word_at, MemoryBus};
use crate::dispatch::DispatchTable;
use crate::flags::FlagRegister;
use crate::registers::Registers;

verus! {

/// The name of a 16-bit register that an instruction loads, counts or adds.
#[derive(Clone, Copy, Debug, PartialEq, Eq, Structural)]
pub enum Reg16 {
    BC,
    DE,
    HL,
    SP,
}

/// The CPU with its bus. Every combination of registers, counters and memory
/// is a valid machine.
pub struct CPU {
    pub registers: Registers,
    /// The program counter: the address of the next byte to fetch.
    pub pc: u16,
    /// The stack pointer: the address of the word on top of the stack.
    pub sp: u16,
    pub bus: MemoryBus,
    /// The decoded opcode tables, built when the machine is made.
    pub dispatch: DispatchTable,
}

/// The state of a machine as a mathematical value: the registers, the two
/// counters, and the memory as a sequence of 65536 bytes.
pub struct CpuState {
    pub registers: Registers,
    pub pc: u16,
    pub sp: u16,
    pub memory: Seq<u8>,
}

/// `addr` moved on by `count` bytes, wrapping at the end of the address space.
pub open spec fn advance(addr: u16, count: int) -> u16 {
    ((addr + count) % 65536) as u16
}

impl CpuState {
    /// The memory covers the whole address space.
    pub open spec fn well_formed(self) -> bool {
        self.memory.len() == 65536
    }

    /// This state with other registers.
    pub open spec fn with_registers(self, registers: Registers) -> CpuState {
        CpuState { registers, ..self }
    }

    /// This state with other flags.
    pub open spec fn with_flags(self, flags: FlagRegister) -> CpuState {
        CpuState { registers: Registers { f: flags, ..self.registers }, ..self }
    }

    /// This state with another program counter.
    pub open spec fn with_pc(self, pc: u16) -> CpuState {
        CpuState { pc, ..self }
    }

    /// This state with `value` stored at `addr`.
    pub open spec fn with_byte(self, addr: u16, value: u8) -> CpuState {
        CpuState { memory: self.memory.update(addr as int, value), ..self }
    }

    /// This state with the program counter moved past `count` operand bytes.
    pub open spec fn skip(self, count: int) -> CpuState {
        CpuState { pc: advance(self.pc, count), ..self }
    }

    /// The byte at the program counter.
    pub open spec fn immediate8(self) -> u8 {
        self.memory[self.pc as int]
    }

    /// The little-endian word at the program counter.
    pub open spec fn immediate16(self) -> u16 {
        word_at(self.memory, self.pc)
    }

    /// The value of a 16-bit register.
    pub open spec fn read16(self, reg: Reg16) -> u16 {
        match reg {
            Reg16::BC => self.registers.bc(),
            Reg16::DE => self.registers.de(),
            Reg16::HL => self.registers.hl(),
            Reg16::SP => self.sp,
        }
    }

    /// This state with `value` in a 16-bit register.
    pub open spec fn with16(self, reg: Reg16, value: u16) -> CpuState {
        match reg {
            Reg16::BC => self.with_registers(self.registers.with_bc(value)),
            Reg16::DE => self.with_registers(self.registers.with_de(value)),
            Reg16::HL => self.with_registers(self.registers.with_hl(value)),
            Reg16::SP => CpuState { sp: value, ..self },
        }
    }

    /// The state of a machine at power-on over the given memory: the registers
    /// as the boot ROM leaves them, SP=0xFFFE, PC=0x0100.
    pub open spec fn power_on(memory: Seq<u8>) -> CpuState {
        CpuState { registers: Registers::power_on(), pc: 0x0100, sp: 0xFFFE, memory }
    }
}

impl View for CPU {
    type V = CpuState;

    open spec fn view(&self) -> CpuState {
        CpuState { registers: self.registers, pc: self.pc, sp: self.sp, memory: self.bus@ }
    }
}

impl CPU {
    /// A machine at power-on with a bus of zeros.
    pub fn new() -> (cpu: CPU)
        ensures
            cpu@ == CpuState::power_on(Seq::new(65536, |addr: int| 0u8)),
    {
        let bus = MemoryBus::new();
        assert(bus@ =~= Seq::new(65536, |addr: int| 0u8));
        CPU::with_bus(bus)
    }

    /// A machine at power-on over a bus that already holds a memory image.
    pub fn with_bus(bus: MemoryBus) -> (cpu: CPU)
        ensures
            cpu@ == CpuState::power_on(bus@),
    {
        CPU {
            registers: Registers::new(),
            pc: 0x0100,
            sp: 0xFFFE,
            bus,
            dispatch: DispatchTable::new(),
        }
    }

    /// Reads the byte at the program counter and moves the program counter past it.
    pub fn fetch_byte(&mut self) -> (value: u8)
        ensures
            value == old(self)@.immediate8(),
            final(self)@ == old(self)@.skip(1),
    {
        let value = self.bus.read_byte(self.pc);
        self.pc = self.pc.wrapping_add(1);
        value
    }

    /// Reads the little-endian word at the program counter and moves the program
    /// counter past it.
    pub fn fetch_word(&mut self) -> (value: u16)
        ensures
            value == old(self)@.immediate16(),
            final(self)@ == old(self)@.skip(2),
    {
        let value = self.bus.read_word(self.pc);
        self.pc = self.pc.wrapping_add(2);
        value
    }

    /// Reads a 16-bit register.
    pub fn get16(&self, reg: Reg16) -> (value: u16)
        ensures
            value == self@.read16(reg),
    {
        match reg {
            Reg16::BC => self.registers.get_bc(),
            Reg16::DE => self.registers.get_de(),
            Reg16::HL => self.registers.get_hl(),
            Reg16::SP => self.sp,
        }
    }

    /// Writes a 16-bit register.
    pub fn set16(&mut self, reg: Reg16, value: u16)
        ensures
            final(self)@ == old(self)@.with16(reg, value),
    {
        match reg {
            Reg16::BC => self.registers.set_bc(value),
            Reg16::DE => self.registers.set_de(value),
            Reg16::HL => self.registers.set_hl(value),
            Reg16::SP => self.sp = value,
        }
    }
}

} // verus!
