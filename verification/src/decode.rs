//! The decoder: which instruction an opcode byte selects, in the base table
//! and in the extended table behind the lead-in byte 0xCB.

use vstd::prelude::*;
use crate::bits::lemma_opcode_fields;
use crate::cpu::Reg16;
use crate::registers::Reg8;

verus! {

/// The lead-in byte of an extended opcode.
pub const EXTENDED_PREFIX: u8 = 0xCB;

/// An opcode: one byte, of the base table or of the extended table.
#[derive(Clone, Copy, Debug, PartialEq, Eq, Structural)]
pub struct Opcode {
    pub byte: u8,
    /// Whether the byte followed the lead-in byte 0xCB.
    pub extended: bool,
}

/// An 8-bit operand that three bits of an opcode select: a register, or the
/// byte in memory at the address in HL.
#[derive(Clone, Copy, Debug, PartialEq, Eq, Structural)]
pub enum Operand8 {
    Register(Reg8),
    HlIndirect,
}

/// An operation of the ALU on A and an operand.
#[derive(Clone, Copy, Debug, PartialEq, Eq, Structural)]
pub enum AluOp {
    Add,
    Adc,
    Sub,
    Sbc,
    And,
    Xor,
    Or,
    Cp,
}

/// A rotate, shift or swap of the extended table.
#[derive(Clone, Copy, Debug, PartialEq, Eq, Structural)]
pub enum ShiftOp {
    Rlc,
    Rrc,
    Rl,
    Rr,
    Sla,
    Sra,
    Swap,
    Srl,
}

/// The condition of a conditional jump, call or return.
#[derive(Clone, Copy, Debug, PartialEq, Eq, Structural)]
pub enum Condition {
    NotZero,
    Zero,
    NotCarry,
    Carry,
}

/// A register pair that PUSH and POP move.
#[derive(Clone, Copy, Debug, PartialEq, Eq, Structural)]
pub enum StackPair {
    BC,
    DE,
    HL,
    AF,
}

/// A decoded instruction. Immediate operands are not part of it: the handler
/// reads them from the bus at the program counter.
#[allow(inconsistent_fields)]
#[derive(Clone, Copy, Debug, PartialEq, Eq, Structural)]
pub enum Instruction {
    /// NOP
    Nop,
    /// LD r,r'
    Load { dst: Operand8, src: Operand8 },
    /// LD r,n
    LoadImmediate { dst: Operand8 },
    /// LD rr,nn
    LoadImmediate16 { dst: Reg16 },
    /// ADD, ADC, SUB, SBC, AND, XOR, OR, CP with an operand
    Alu { op: AluOp, src: Operand8 },
    /// ADD, ADC, SUB, SBC, AND, XOR, OR, CP with an immediate byte
    AluImmediate { op: AluOp },
    /// INC r
    Inc { target: Operand8 },
    /// DEC r
    Dec { target: Operand8 },
    /// INC rr
    Inc16 { target: Reg16 },
    /// DEC rr
    Dec16 { target: Reg16 },
    /// ADD HL,rr
    AddHl { src: Reg16 },
    /// JP nn
    Jump,
    /// JP cc,nn
    JumpIf { condition: Condition },
    /// JR e
    JumpRelative,
    /// JR cc,e
    JumpRelativeIf { condition: Condition },
    /// CALL nn
    Call,
    /// CALL cc,nn
    CallIf { condition: Condition },
    /// RET
    Return,
    /// RET cc
    ReturnIf { condition: Condition },
    /// RST: a call of the address `vector`, one of 0x00, 0x08, ... 0x38
    Restart { vector: u8 },
    /// PUSH rr
    Push { pair: StackPair },
    /// POP rr
    Pop { pair: StackPair },
    /// RLC, RRC, RL, RR, SLA, SRA, SWAP, SRL
    Shift { op: ShiftOp, target: Operand8 },
    /// BIT b,r
    TestBit { bit: u8, target: Operand8 },
    /// RES b,r
    ResetBit { bit: u8, target: Operand8 },
    /// SET b,r
    SetBit { bit: u8, target: Operand8 },
}

impl Operand8 {
    /// The three bits that select this operand: B, C, D, E, H, L, (HL), A are
    /// 0 to 7.
    pub open spec fn code(self) -> int {
        match self {
            Operand8::Register(Reg8::B) => 0,
            Operand8::Register(Reg8::C) => 1,
            Operand8::Register(Reg8::D) => 2,
            Operand8::Register(Reg8::E) => 3,
            Operand8::Register(Reg8::H) => 4,
            Operand8::Register(Reg8::L) => 5,
            Operand8::HlIndirect => 6,
            Operand8::Register(Reg8::A) => 7,
        }
    }

    /// The operand that `code` selects.
    pub open spec fn of_code(code: int) -> Operand8 {
        if code == 0 {
            Operand8::Register(Reg8::B)
        } else if code == 1 {
            Operand8::Register(Reg8::C)
        } else if code == 2 {
            Operand8::Register(Reg8::D)
        } else if code == 3 {
            Operand8::Register(Reg8::E)
        } else if code == 4 {
            Operand8::Register(Reg8::H)
        } else if code == 5 {
            Operand8::Register(Reg8::L)
        } else if code == 6 {
            Operand8::HlIndirect
        } else {
            Operand8::Register(Reg8::A)
        }
    }

    fn from_code(code: u8) -> (operand: Operand8)
        requires
            code < 8,
        ensures
            operand == Operand8::of_code(code as int),
    {
        match code {
            0 => Operand8::Register(Reg8::B),
            1 => Operand8::Register(Reg8::C),
            2 => Operand8::Register(Reg8::D),
            3 => Operand8::Register(Reg8::E),
            4 => Operand8::Register(Reg8::H),
            5 => Operand8::Register(Reg8::L),
            6 => Operand8::HlIndirect,
            _ => Operand8::Register(Reg8::A),
        }
    }
}

impl AluOp {
    /// The three bits that select this operation.
    pub open spec fn code(self) -> int {
        match self {
            AluOp::Add => 0,
            AluOp::Adc => 1,
            AluOp::Sub => 2,
            AluOp::Sbc => 3,
            AluOp::And => 4,
            AluOp::Xor => 5,
            AluOp::Or => 6,
            AluOp::Cp => 7,
        }
    }

    /// The operation that `code` selects.
    pub open spec fn of_code(code: int) -> AluOp {
        if code == 0 {
            AluOp::Add
        } else if code == 1 {
            AluOp::Adc
        } else if code == 2 {
            AluOp::Sub
        } else if code == 3 {
            AluOp::Sbc
        } else if code == 4 {
            AluOp::And
        } else if code == 5 {
            AluOp::Xor
        } else if code == 6 {
            AluOp::Or
        } else {
            AluOp::Cp
        }
    }

    fn from_code(code: u8) -> (op: AluOp)
        requires
            code < 8,
        ensures
            op == AluOp::of_code(code as int),
    {
        match code {
            0 => AluOp::Add,
            1 => AluOp::Adc,
            2 => AluOp::Sub,
            3 => AluOp::Sbc,
            4 => AluOp::And,
            5 => AluOp::Xor,
            6 => AluOp::Or,
            _ => AluOp::Cp,
        }
    }
}

impl ShiftOp {
    /// The three bits that select this operation.
    pub open spec fn code(self) -> int {
        match self {
            ShiftOp::Rlc => 0,
            ShiftOp::Rrc => 1,
            ShiftOp::Rl => 2,
            ShiftOp::Rr => 3,
            ShiftOp::Sla => 4,
            ShiftOp::Sra => 5,
            ShiftOp::Swap => 6,
            ShiftOp::Srl => 7,
        }
    }

    /// The operation that `code` selects.
    pub open spec fn of_code(code: int) -> ShiftOp {
        if code == 0 {
            ShiftOp::Rlc
        } else if code == 1 {
            ShiftOp::Rrc
        } else if code == 2 {
            ShiftOp::Rl
        } else if code == 3 {
            ShiftOp::Rr
        } else if code == 4 {
            ShiftOp::Sla
        } else if code == 5 {
            ShiftOp::Sra
        } else if code == 6 {
            ShiftOp::Swap
        } else {
            ShiftOp::Srl
        }
    }

    fn from_code(code: u8) -> (op: ShiftOp)
        requires
            code < 8,
        ensures
            op == ShiftOp::of_code(code as int),
    {
        match code {
            0 => ShiftOp::Rlc,
            1 => ShiftOp::Rrc,
            2 => ShiftOp::Rl,
            3 => ShiftOp::Rr,
            4 => ShiftOp::Sla,
            5 => ShiftOp::Sra,
            6 => ShiftOp::Swap,
            _ => ShiftOp::Srl,
        }
    }
}

impl Condition {
    /// The two bits that select this condition.
    pub open spec fn code(self) -> int {
        match self {
            Condition::NotZero => 0,
            Condition::Zero => 1,
            Condition::NotCarry => 2,
            Condition::Carry => 3,
        }
    }

    /// The condition that `code` selects.
    pub open spec fn of_code(code: int) -> Condition {
        if code == 0 {
            Condition::NotZero
        } else if code == 1 {
            Condition::Zero
        } else if code == 2 {
            Condition::NotCarry
        } else {
            Condition::Carry
        }
    }

    fn from_code(code: u8) -> (condition: Condition)
        requires
            code < 4,
        ensures
            condition == Condition::of_code(code as int),
    {
        match code {
            0 => Condition::NotZero,
            1 => Condition::Zero,
            2 => Condition::NotCarry,
            _ => Condition::Carry,
        }
    }
}

/// The two bits that select a 16-bit register: BC, DE, HL, SP are 0 to 3.
pub open spec fn reg16_code(reg: Reg16) -> int {
    match reg {
        Reg16::BC => 0,
        Reg16::DE => 1,
        Reg16::HL => 2,
        Reg16::SP => 3,
    }
}

/// The 16-bit register that `code` selects.
pub open spec fn reg16_of_code(code: int) -> Reg16 {
    if code == 0 {
        Reg16::BC
    } else if code == 1 {
        Reg16::DE
    } else if code == 2 {
        Reg16::HL
    } else {
        Reg16::SP
    }
}

fn reg16_from_code(code: u8) -> (reg: Reg16)
    requires
        code < 4,
    ensures
        reg == reg16_of_code(code as int),
{
    match code {
        0 => Reg16::BC,
        1 => Reg16::DE,
        2 => Reg16::HL,
        _ => Reg16::SP,
    }
}

impl StackPair {
    /// The two bits that select this pair.
    pub open spec fn code(self) -> int {
        match self {
            StackPair::BC => 0,
            StackPair::DE => 1,
            StackPair::HL => 2,
            StackPair::AF => 3,
        }
    }

    /// The pair that `code` selects.
    pub open spec fn of_code(code: int) -> StackPair {
        if code == 0 {
            StackPair::BC
        } else if code == 1 {
            StackPair::DE
        } else if code == 2 {
            StackPair::HL
        } else {
            StackPair::AF
        }
    }

    fn from_code(code: u8) -> (pair: StackPair)
        requires
            code < 4,
        ensures
            pair == StackPair::of_code(code as int),
    {
        match code {
            0 => StackPair::BC,
            1 => StackPair::DE,
            2 => StackPair::HL,
            _ => StackPair::AF,
        }
    }
}

/// The opcode `byte` of the base table.
pub open spec fn base(byte: int) -> Opcode {
    Opcode { byte: byte as u8, extended: false }
}

/// The opcode `byte` of the extended table.
pub open spec fn extended(byte: int) -> Opcode {
    Opcode { byte: byte as u8, extended: true }
}

impl Instruction {
    /// Whether an opcode exists for this instruction: a bit index is below 8, a
    /// restart vector is one of the eight, and LD (HL),(HL) does not exist.
    pub open spec fn is_valid(self) -> bool {
        match self {
            Instruction::Load { dst, src } => !(dst is HlIndirect && src is HlIndirect),
            Instruction::Restart { vector } => vector % 8 == 0 && vector <= 0x38,
            Instruction::TestBit { bit, target } => bit < 8,
            Instruction::ResetBit { bit, target } => bit < 8,
            Instruction::SetBit { bit, target } => bit < 8,
            _ => true,
        }
    }

    /// The opcode of this instruction.
    pub open spec fn opcode(self) -> Opcode {
        match self {
            Instruction::Nop => base(0x00),
            Instruction::Load { dst, src } => base(0x40 + 8 * dst.code() + src.code()),
            Instruction::LoadImmediate { dst } => base(0x06 + 8 * dst.code()),
            Instruction::LoadImmediate16 { dst } => base(0x01 + 16 * reg16_code(dst)),
            Instruction::Alu { op, src } => base(0x80 + 8 * op.code() + src.code()),
            Instruction::AluImmediate { op } => base(0xC6 + 8 * op.code()),
            Instruction::Inc { target } => base(0x04 + 8 * target.code()),
            Instruction::Dec { target } => base(0x05 + 8 * target.code()),
            Instruction::Inc16 { target } => base(0x03 + 16 * reg16_code(target)),
            Instruction::Dec16 { target } => base(0x0B + 16 * reg16_code(target)),
            Instruction::AddHl { src } => base(0x09 + 16 * reg16_code(src)),
            Instruction::Jump => base(0xC3),
            Instruction::JumpIf { condition } => base(0xC2 + 8 * condition.code()),
            Instruction::JumpRelative => base(0x18),
            Instruction::JumpRelativeIf { condition } => base(0x20 + 8 * condition.code()),
            Instruction::Call => base(0xCD),
            Instruction::CallIf { condition } => base(0xC4 + 8 * condition.code()),
            Instruction::Return => base(0xC9),
            Instruction::ReturnIf { condition } => base(0xC0 + 8 * condition.code()),
            Instruction::Restart { vector } => base(0xC7 + vector),
            Instruction::Push { pair } => base(0xC5 + 16 * pair.code()),
            Instruction::Pop { pair } => base(0xC1 + 16 * pair.code()),
            Instruction::Shift { op, target } => extended(8 * op.code() + target.code()),
            Instruction::TestBit { bit, target } => extended(0x40 + 8 * bit + target.code()),
            Instruction::ResetBit { bit, target } => extended(0x80 + 8 * bit + target.code()),
            Instruction::SetBit { bit, target } => extended(0xC0 + 8 * bit + target.code()),
        }
    }
}

/// The instruction that an opcode of the extended table selects by its
/// fields. Every opcode of that table selects one.
pub open spec fn decoded_extended(quarter: int, middle: int, low: int) -> Instruction {
    let target = Operand8::of_code(low);
    if quarter == 0 {
        Instruction::Shift { op: ShiftOp::of_code(middle), target }
    } else if quarter == 1 {
        Instruction::TestBit { bit: middle as u8, target }
    } else if quarter == 2 {
        Instruction::ResetBit { bit: middle as u8, target }
    } else {
        Instruction::SetBit { bit: middle as u8, target }
    }
}

/// The instruction that an opcode of the first quarter of the base table,
/// 0x00 to 0x3F, selects by its fields, if it selects one.
pub open spec fn decoded_first_quarter(middle: int, low: int) -> Option<Instruction> {
    if low == 0 {
        if middle == 0 {
            Some(Instruction::Nop)
        } else if middle == 3 {
            Some(Instruction::JumpRelative)
        } else if middle >= 4 {
            Some(Instruction::JumpRelativeIf { condition: Condition::of_code(middle - 4) })
        } else {
            None
        }
    } else if low == 1 {
        if middle % 2 == 0 {
            Some(Instruction::LoadImmediate16 { dst: reg16_of_code(middle / 2) })
        } else {
            Some(Instruction::AddHl { src: reg16_of_code(middle / 2) })
        }
    } else if low == 3 {
        if middle % 2 == 0 {
            Some(Instruction::Inc16 { target: reg16_of_code(middle / 2) })
        } else {
            Some(Instruction::Dec16 { target: reg16_of_code(middle / 2) })
        }
    } else if low == 4 {
        Some(Instruction::Inc { target: Operand8::of_code(middle) })
    } else if low == 5 {
        Some(Instruction::Dec { target: Operand8::of_code(middle) })
    } else if low == 6 {
        Some(Instruction::LoadImmediate { dst: Operand8::of_code(middle) })
    } else {
        None
    }
}

/// The instruction that an opcode of the last quarter of the base table,
/// 0xC0 to 0xFF, selects by its fields, if it selects one.
pub open spec fn decoded_last_quarter(middle: int, low: int) -> Option<Instruction> {
    if low == 0 {
        if middle < 4 {
            Some(Instruction::ReturnIf { condition: Condition::of_code(middle) })
        } else {
            None
        }
    } else if low == 1 {
        if middle % 2 == 0 {
            Some(Instruction::Pop { pair: StackPair::of_code(middle / 2) })
        } else if middle == 1 {
            Some(Instruction::Return)
        } else {
            None
        }
    } else if low == 2 {
        if middle < 4 {
            Some(Instruction::JumpIf { condition: Condition::of_code(middle) })
        } else {
            None
        }
    } else if low == 3 {
        if middle == 0 {
            Some(Instruction::Jump)
        } else {
            None
        }
    } else if low == 4 {
        if middle < 4 {
            Some(Instruction::CallIf { condition: Condition::of_code(middle) })
        } else {
            None
        }
    } else if low == 5 {
        if middle % 2 == 0 {
            Some(Instruction::Push { pair: StackPair::of_code(middle / 2) })
        } else if middle == 1 {
            Some(Instruction::Call)
        } else {
            None
        }
    } else if low == 6 {
        Some(Instruction::AluImmediate { op: AluOp::of_code(middle) })
    } else {
        Some(Instruction::Restart { vector: (8 * middle) as u8 })
    }
}

/// The instruction that an opcode selects by its three fields, if it selects
/// one: `quarter` is bits 7 and 6 of the byte, `middle` bits 5 to 3, `low`
/// bits 2 to 0. The second quarter of the base table holds the loads between
/// operands, but for 0x76; the third the ALU operations on A and an operand.
pub open spec fn decoded_fields(extended: bool, quarter: int, middle: int, low: int) -> Option<
    Instruction,
> {
    if extended {
        Some(decoded_extended(quarter, middle, low))
    } else if quarter == 0 {
        decoded_first_quarter(middle, low)
    } else if quarter == 1 {
        if middle == 6 && low == 6 {
            None
        } else {
            Some(Instruction::Load { dst: Operand8::of_code(middle), src: Operand8::of_code(low) })
        }
    } else if quarter == 2 {
        Some(Instruction::Alu { op: AluOp::of_code(middle), src: Operand8::of_code(low) })
    } else {
        decoded_last_quarter(middle, low)
    }
}

/// The instruction that an opcode selects, if it selects one.
pub open spec fn decoded(opcode: Opcode) -> Option<Instruction> {
    decoded_fields(
        opcode.extended,
        opcode.byte as int / 64,
        (opcode.byte as int / 8) % 8,
        opcode.byte as int % 8,
    )
}

fn decode_first_quarter(middle: u8, low: u8) -> (instruction: Option<Instruction>)
    requires
        middle < 8,
        low < 8,
    ensures
        instruction == decoded_first_quarter(middle as int, low as int),
{
    match low {
        0 => {
            if middle == 0 {
                Some(Instruction::Nop)
            } else if middle == 3 {
                Some(Instruction::JumpRelative)
            } else if middle >= 4 {
                Some(Instruction::JumpRelativeIf { condition: Condition::from_code(middle - 4) })
            } else {
                None
            }
        },
        1 => {
            if middle % 2 == 0 {
                Some(Instruction::LoadImmediate16 { dst: reg16_from_code(middle / 2) })
            } else {
                Some(Instruction::AddHl { src: reg16_from_code(middle / 2) })
            }
        },
        3 => {
            if middle % 2 == 0 {
                Some(Instruction::Inc16 { target: reg16_from_code(middle / 2) })
            } else {
                Some(Instruction::Dec16 { target: reg16_from_code(middle / 2) })
            }
        },
        4 => Some(Instruction::Inc { target: Operand8::from_code(middle) }),
        5 => Some(Instruction::Dec { target: Operand8::from_code(middle) }),
        6 => Some(Instruction::LoadImmediate { dst: Operand8::from_code(middle) }),
        _ => None,
    }
}

fn decode_last_quarter(middle: u8, low: u8) -> (instruction: Option<Instruction>)
    requires
        middle < 8,
        low < 8,
    ensures
        instruction == decoded_last_quarter(middle as int, low as int),
{
    match low {
        0 => {
            if middle < 4 {
                Some(Instruction::ReturnIf { condition: Condition::from_code(middle) })
            } else {
                None
            }
        },
        1 => {
            if middle % 2 == 0 {
                Some(Instruction::Pop { pair: StackPair::from_code(middle / 2) })
            } else if middle == 1 {
                Some(Instruction::Return)
            } else {
                None
            }
        },
        2 => {
            if middle < 4 {
                Some(Instruction::JumpIf { condition: Condition::from_code(middle) })
            } else {
                None
            }
        },
        3 => {
            if middle == 0 {
                Some(Instruction::Jump)
            } else {
                None
            }
        },
        4 => {
            if middle < 4 {
                Some(Instruction::CallIf { condition: Condition::from_code(middle) })
            } else {
                None
            }
        },
        5 => {
            if middle % 2 == 0 {
                Some(Instruction::Push { pair: StackPair::from_code(middle / 2) })
            } else if middle == 1 {
                Some(Instruction::Call)
            } else {
                None
            }
        },
        6 => Some(Instruction::AluImmediate { op: AluOp::from_code(middle) }),
        _ => Some(Instruction::Restart { vector: middle * 8 }),
    }
}

/// Decodes an opcode. `None` says that no handler is assigned to it, which
/// happens in the base table only.
pub fn decode(opcode: Opcode) -> (instruction: Option<Instruction>)
    ensures
        instruction == decoded(opcode),
        instruction matches Some(i) ==> i.is_valid() && i.opcode() == opcode,
        opcode.extended ==> instruction is Some,
{
    let byte = opcode.byte;
    let quarter = byte >> 6;
    let middle = (byte >> 3) & 7;
    let low = byte & 7;
    proof {
        lemma_opcode_fields(byte);
        lemma_decoded_has_opcode(opcode);
    }
    if opcode.extended {
        let target = Operand8::from_code(low);
        Some(
            match quarter {
                0 => Instruction::Shift { op: ShiftOp::from_code(middle), target },
                1 => Instruction::TestBit { bit: middle, target },
                2 => Instruction::ResetBit { bit: middle, target },
                _ => Instruction::SetBit { bit: middle, target },
            },
        )
    } else {
        match quarter {
            0 => decode_first_quarter(middle, low),
            1 => {
                if middle == 6 && low == 6 {
                    None
                } else {
                    Some(
                        Instruction::Load {
                            dst: Operand8::from_code(middle),
                            src: Operand8::from_code(low),
                        },
                    )
                }
            },
            2 => Some(
                Instruction::Alu { op: AluOp::from_code(middle), src: Operand8::from_code(low) },
            ),
            _ => decode_last_quarter(middle, low),
        }
    }
}

/// A code within its two or three bits is the code of what it selects.
pub proof fn lemma_selected_has_code(code: int)
    ensures
        0 <= code < 8 ==> Operand8::of_code(code).code() == code,
        0 <= code < 8 ==> AluOp::of_code(code).code() == code,
        0 <= code < 8 ==> ShiftOp::of_code(code).code() == code,
        0 <= code < 4 ==> Condition::of_code(code).code() == code,
        0 <= code < 4 ==> reg16_code(reg16_of_code(code)) == code,
        0 <= code < 4 ==> StackPair::of_code(code).code() == code,
{
}

/// The code of an operand is within three bits and selects the operand.
pub proof fn lemma_operand_code(operand: Operand8)
    ensures
        0 <= operand.code() < 8,
        Operand8::of_code(operand.code()) == operand,
{
}

/// The code of an operation of the ALU is within three bits and selects it.
pub proof fn lemma_alu_code(op: AluOp)
    ensures
        0 <= op.code() < 8,
        AluOp::of_code(op.code()) == op,
{
}

/// The code of a rotate, shift or swap is within three bits and selects it.
pub proof fn lemma_shift_code(op: ShiftOp)
    ensures
        0 <= op.code() < 8,
        ShiftOp::of_code(op.code()) == op,
{
}

/// The code of a condition is within two bits and selects the condition.
pub proof fn lemma_condition_code(condition: Condition)
    ensures
        0 <= condition.code() < 4,
        Condition::of_code(condition.code()) == condition,
{
}

/// The code of a 16-bit register is within two bits and selects the register.
pub proof fn lemma_reg16_code(reg: Reg16)
    ensures
        0 <= reg16_code(reg) < 4,
        reg16_of_code(reg16_code(reg)) == reg,
{
}

/// The code of a pair is within two bits and selects the pair.
pub proof fn lemma_pair_code(pair: StackPair)
    ensures
        0 <= pair.code() < 4,
        StackPair::of_code(pair.code()) == pair,
{
}

/// A byte is made of its three fields, and they are read back from it.
proof fn lemma_fields(quarter: int, middle: int, low: int)
    requires
        0 <= quarter < 4,
        0 <= middle < 8,
        0 <= low < 8,
    ensures
        0 <= 64 * quarter + 8 * middle + low < 256,
        (64 * quarter + 8 * middle + low) / 64 == quarter,
        ((64 * quarter + 8 * middle + low) / 8) % 8 == middle,
        (64 * quarter + 8 * middle + low) % 8 == low,
{
}

/// What the fields of an opcode select is a valid instruction whose opcode
/// has those fields.
proof fn lemma_selected_has_fields(extended: bool, quarter: int, middle: int, low: int)
    requires
        0 <= quarter < 4,
        0 <= middle < 8,
        0 <= low < 8,
    ensures
        decoded_fields(extended, quarter, middle, low) matches Some(i) ==> i.is_valid()
            && i.opcode() == (Opcode { byte: (64 * quarter + 8 * middle + low) as u8, extended }),
{
    lemma_selected_has_code(middle);
    lemma_selected_has_code(low);
    lemma_selected_has_code(middle / 2);
    lemma_selected_has_code(middle - 4);
    if !extended && quarter == 1 && !(middle == 6 && low == 6) {
        assert(!(Operand8::of_code(middle) is HlIndirect && Operand8::of_code(low) is HlIndirect));
    }
}

/// What is decoded from an opcode is a valid instruction with that opcode.
pub proof fn lemma_decoded_has_opcode(opcode: Opcode)
    ensures
        decoded(opcode) matches Some(i) ==> i.is_valid() && i.opcode() == opcode,
{
    let byte = opcode.byte as int;
    assert(byte == 64 * (byte / 64) + 8 * ((byte / 8) % 8) + byte % 8);
    lemma_selected_has_fields(opcode.extended, byte / 64, (byte / 8) % 8, byte % 8);
}

/// An instruction whose opcode has the three fields, and which those fields
/// select, is decoded from its opcode.
proof fn lemma_decoded_at(instruction: Instruction, quarter: int, middle: int, low: int)
    requires
        0 <= quarter < 4,
        0 <= middle < 8,
        0 <= low < 8,
        instruction.opcode().byte == 64 * quarter + 8 * middle + low,
        decoded_fields(instruction.opcode().extended, quarter, middle, low) == Some(instruction),
    ensures
        decoded(instruction.opcode()) == Some(instruction),
{
    lemma_fields(quarter, middle, low);
}

/// Decoding the opcode of a load or NOP gives it back.
proof fn lemma_load_is_decoded(instruction: Instruction)
    requires
        instruction.is_valid(),
        instruction is Nop || instruction is Load || instruction is LoadImmediate
            || instruction is LoadImmediate16,
    ensures
        decoded(instruction.opcode()) == Some(instruction),
{
    match instruction {
        Instruction::Nop => {
            lemma_decoded_at(instruction, 0, 0, 0);
        },
        Instruction::Load { dst, src } => {
            lemma_operand_code(dst);
            lemma_operand_code(src);
            lemma_decoded_at(instruction, 1, dst.code(), src.code());
        },
        Instruction::LoadImmediate { dst } => {
            lemma_operand_code(dst);
            lemma_decoded_at(instruction, 0, dst.code(), 6);
        },
        Instruction::LoadImmediate16 { dst } => {
            lemma_reg16_code(dst);
            lemma_decoded_at(instruction, 0, 2 * reg16_code(dst), 1);
        },
        _ => {},
    }
}

/// Decoding the opcode of an arithmetic or logic instruction of the base table gives it back.
proof fn lemma_arithmetic_is_decoded(instruction: Instruction)
    requires
        instruction.is_valid(),
        instruction is Alu || instruction is AluImmediate || instruction is Inc
            || instruction is Dec || instruction is Inc16 || instruction is Dec16
            || instruction is AddHl,
    ensures
        decoded(instruction.opcode()) == Some(instruction),
{
    match instruction {
        Instruction::Alu { op, src } => {
            lemma_alu_code(op);
            lemma_operand_code(src);
            lemma_decoded_at(instruction, 2, op.code(), src.code());
        },
        Instruction::AluImmediate { op } => {
            lemma_alu_code(op);
            lemma_decoded_at(instruction, 3, op.code(), 6);
        },
        Instruction::Inc { target } => {
            lemma_operand_code(target);
            lemma_decoded_at(instruction, 0, target.code(), 4);
        },
        Instruction::Dec { target } => {
            lemma_operand_code(target);
            lemma_decoded_at(instruction, 0, target.code(), 5);
        },
        Instruction::Inc16 { target } => {
            lemma_reg16_code(target);
            lemma_decoded_at(instruction, 0, 2 * reg16_code(target), 3);
        },
        Instruction::Dec16 { target } => {
            lemma_reg16_code(target);
            lemma_decoded_at(instruction, 0, 2 * reg16_code(target) + 1, 3);
        },
        Instruction::AddHl { src } => {
            lemma_reg16_code(src);
            lemma_decoded_at(instruction, 0, 2 * reg16_code(src) + 1, 1);
        },
        _ => {},
    }
}

/// Decoding the opcode of a jump gives it back.
proof fn lemma_jump_is_decoded(instruction: Instruction)
    requires
        instruction.is_valid(),
        instruction is Jump || instruction is JumpIf || instruction is JumpRelative
            || instruction is JumpRelativeIf,
    ensures
        decoded(instruction.opcode()) == Some(instruction),
{
    match instruction {
        Instruction::Jump => {
            lemma_decoded_at(instruction, 3, 0, 3);
        },
        Instruction::JumpIf { condition } => {
            lemma_condition_code(condition);
            lemma_decoded_at(instruction, 3, condition.code(), 2);
        },
        Instruction::JumpRelative => {
            lemma_decoded_at(instruction, 0, 3, 0);
        },
        Instruction::JumpRelativeIf { condition } => {
            lemma_condition_code(condition);
            lemma_decoded_at(instruction, 0, 4 + condition.code(), 0);
        },
        _ => {},
    }
}

/// Decoding the opcode of a call, return or restart gives it back.
proof fn lemma_call_is_decoded(instruction: Instruction)
    requires
        instruction.is_valid(),
        instruction is Call || instruction is CallIf || instruction is Return
            || instruction is ReturnIf || instruction is Restart,
    ensures
        decoded(instruction.opcode()) == Some(instruction),
{
    match instruction {
        Instruction::Call => {
            lemma_decoded_at(instruction, 3, 1, 5);
        },
        Instruction::CallIf { condition } => {
            lemma_condition_code(condition);
            lemma_decoded_at(instruction, 3, condition.code(), 4);
        },
        Instruction::Return => {
            lemma_decoded_at(instruction, 3, 1, 1);
        },
        Instruction::ReturnIf { condition } => {
            lemma_condition_code(condition);
            lemma_decoded_at(instruction, 3, condition.code(), 0);
        },
        Instruction::Restart { vector } => {
            lemma_decoded_at(instruction, 3, vector as int / 8, 7);
        },
        _ => {},
    }
}

/// Decoding the opcode of PUSH or POP gives it back.
proof fn lemma_stack_is_decoded(instruction: Instruction)
    requires
        instruction.is_valid(),
        instruction is Push || instruction is Pop,
    ensures
        decoded(instruction.opcode()) == Some(instruction),
{
    match instruction {
        Instruction::Push { pair } => {
            lemma_pair_code(pair);
            lemma_decoded_at(instruction, 3, 2 * pair.code(), 5);
        },
        Instruction::Pop { pair } => {
            lemma_pair_code(pair);
            lemma_decoded_at(instruction, 3, 2 * pair.code(), 1);
        },
        _ => {},
    }
}

/// Decoding the opcode of an instruction of the extended table gives it back.
proof fn lemma_extended_is_decoded(instruction: Instruction)
    requires
        instruction.is_valid(),
        instruction is Shift || instruction is TestBit || instruction is ResetBit
            || instruction is SetBit,
    ensures
        decoded(instruction.opcode()) == Some(instruction),
{
    match instruction {
        Instruction::Shift { op, target } => {
            lemma_shift_code(op);
            lemma_operand_code(target);
            lemma_decoded_at(instruction, 0, op.code(), target.code());
        },
        Instruction::TestBit { bit, target } => {
            lemma_operand_code(target);
            lemma_decoded_at(instruction, 1, bit as int, target.code());
        },
        Instruction::ResetBit { bit, target } => {
            lemma_operand_code(target);
            lemma_decoded_at(instruction, 2, bit as int, target.code());
        },
        Instruction::SetBit { bit, target } => {
            lemma_operand_code(target);
            lemma_decoded_at(instruction, 3, bit as int, target.code());
        },
        _ => {},
    }
}

/// Decoding the opcode of a valid instruction gives the instruction back, so
/// no two valid instructions share an opcode.
pub proof fn lemma_opcode_is_decoded(instruction: Instruction)
    requires
        instruction.is_valid(),
    ensures
        decoded(instruction.opcode()) == Some(instruction),
{
    match instruction {
        Instruction::Nop | Instruction::Load { .. } | Instruction::LoadImmediate { .. }
        | Instruction::LoadImmediate16 { .. } => {
            lemma_load_is_decoded(instruction);
        },
        Instruction::Alu { .. } | Instruction::AluImmediate { .. } | Instruction::Inc { .. }
        | Instruction::Dec { .. } | Instruction::Inc16 { .. } | Instruction::Dec16 { .. }
        | Instruction::AddHl { .. } => {
            lemma_arithmetic_is_decoded(instruction);
        },
        Instruction::Jump | Instruction::JumpIf { .. } | Instruction::JumpRelative
        | Instruction::JumpRelativeIf { .. } => {
            lemma_jump_is_decoded(instruction);
        },
        Instruction::Call | Instruction::CallIf { .. } | Instruction::Return
        | Instruction::ReturnIf { .. } | Instruction::Restart { .. } => {
            lemma_call_is_decoded(instruction);
        },
        Instruction::Push { .. } | Instruction::Pop { .. } => {
            lemma_stack_is_decoded(instruction);
        },
        Instruction::Shift { .. } | Instruction::TestBit { .. } | Instruction::ResetBit { .. }
        | Instruction::SetBit { .. } => {
            lemma_extended_is_decoded(instruction);
        },
    }
}

/// An opcode from which nothing is decoded is the opcode of no valid
/// instruction, and it is never one of the extended table.
pub proof fn lemma_undecoded_has_no_instruction(opcode: Opcode, instruction: Instruction)
    requires
        decoded(opcode) is None,
        instruction.is_valid(),
    ensures
        instruction.opcode() != opcode,
        !opcode.extended,
{
    lemma_opcode_is_decoded(instruction);
}

} // verus!
