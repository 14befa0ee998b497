use emulator::bus::MemoryBus;
use emulator::cpu::{Reg16, CPU};
use emulator::decode::{
    decode, AluOp, Condition, Instruction, Opcode, Operand8, ShiftOp, StackPair,
};
use emulator::dispatch::DispatchTable;
use emulator::execute::CpuError;
use emulator::flags::FlagRegister;
use emulator::registers::Reg8;

fn flags(zero: bool, subtract: bool, half_carry: bool, carry: bool) -> FlagRegister {
    FlagRegister { zero, subtract, half_carry, carry }
}

fn machine_with(program: &[u8]) -> CPU {
    let mut bus = MemoryBus::new();
    let mut addr: u16 = 0x0100;
    for byte in program {
        bus.write_byte(addr, *byte);
        addr = addr.wrapping_add(1);
    }
    CPU::with_bus(bus)
}

fn base(byte: u8) -> Opcode {
    Opcode { byte, extended: false }
}

fn extended(byte: u8) -> Opcode {
    Opcode { byte, extended: true }
}

#[test]
fn step_loads_an_immediate_into_b() {
    let mut cpu = machine_with(&[0x06, 0x05]);
    assert_eq!(cpu.step(), Ok(base(0x06)));
    assert_eq!(cpu.registers.b, 0x05);
    assert_eq!(cpu.pc, 0x0102);
}

#[test]
fn a_machine_over_an_image_starts_at_power_on() {
    let cpu = machine_with(&[0xAA, 0xBB]);
    assert_eq!(cpu.pc, 0x0100);
    assert_eq!(cpu.sp, 0xFFFE);
    assert_eq!(cpu.registers.get_af(), 0x01B0);
    assert_eq!(cpu.registers.get_bc(), 0x0013);
    assert_eq!(cpu.registers.get_de(), 0x00D8);
    assert_eq!(cpu.registers.get_hl(), 0x014D);
    assert_eq!(cpu.bus.read_byte(0x0100), 0xAA);
    assert_eq!(cpu.bus.read_byte(0x0101), 0xBB);
}

#[test]
fn fetch_reads_at_the_program_counter_and_moves_it() {
    let mut cpu = machine_with(&[0x11, 0x22, 0x33]);
    assert_eq!(cpu.fetch_byte(), 0x11);
    assert_eq!(cpu.pc, 0x0101);
    assert_eq!(cpu.fetch_word(), 0x3322);
    assert_eq!(cpu.pc, 0x0103);
    cpu.pc = 0xFFFF;
    cpu.bus.write_byte(0xFFFF, 0x44);
    assert_eq!(cpu.fetch_byte(), 0x44);
    assert_eq!(cpu.pc, 0x0000);
}

#[test]
fn an_unsupported_opcode_is_reported_and_only_fetched() {
    let unsupported =
        [0xD3u8, 0xDB, 0xDD, 0xE3, 0xE4, 0xEB, 0xEC, 0xED, 0xF4, 0xFC, 0xFD, 0x76, 0x27, 0x10];
    for byte in unsupported {
        let mut cpu = machine_with(&[byte, 0x12, 0x34]);
        let before = cpu.registers;
        assert_eq!(cpu.step(), Err(CpuError::UnsupportedOpcode(base(byte))));
        assert_eq!(cpu.pc, 0x0101);
        assert_eq!(cpu.sp, 0xFFFE);
        assert_eq!(cpu.registers, before);
        assert_eq!(cpu.bus.read_byte(0x0100), byte);
        assert_eq!(cpu.bus.read_byte(0x0101), 0x12);
        assert_eq!(cpu.bus.read_byte(0xFFFD), 0x00);
        assert_eq!(cpu.bus.read_byte(0xFFFC), 0x00);
    }
}

#[test]
fn stepping_goes_on_after_an_unsupported_opcode() {
    let mut cpu = machine_with(&[0xD3, 0x3E, 0x77]);
    assert_eq!(cpu.step(), Err(CpuError::UnsupportedOpcode(base(0xD3))));
    assert_eq!(cpu.step(), Ok(base(0x3E)));
    assert_eq!(cpu.registers.a, 0x77);
    assert_eq!(cpu.pc, 0x0103);
}

#[test]
fn nop_only_moves_the_program_counter() {
    let mut cpu = machine_with(&[0x00]);
    let before = cpu.registers;
    assert_eq!(cpu.step(), Ok(base(0x00)));
    assert_eq!(cpu.pc, 0x0101);
    assert_eq!(cpu.sp, 0xFFFE);
    assert_eq!(cpu.registers, before);
}

#[test]
fn the_program_counter_wraps_at_the_end_of_memory() {
    let mut cpu = CPU::new();
    cpu.pc = 0xFFFF;
    assert_eq!(cpu.step(), Ok(base(0x00)));
    assert_eq!(cpu.pc, 0x0000);
    cpu.pc = 0xFFFF;
    cpu.bus.write_byte(0xFFFF, 0x3E);
    cpu.bus.write_byte(0x0000, 0x42);
    assert_eq!(cpu.step(), Ok(base(0x3E)));
    assert_eq!(cpu.registers.a, 0x42);
    assert_eq!(cpu.pc, 0x0001);
}

#[test]
fn loads_between_registers_and_memory() {
    // LD H,0xC0; LD L,0x10; LD (HL),0xAB; LD B,(HL); LD C,B; LD (HL),C; LD A,(HL)
    let mut cpu = machine_with(&[0x26, 0xC0, 0x2E, 0x10, 0x36, 0xAB, 0x46, 0x48, 0x71, 0x7E]);
    assert_eq!(cpu.step(), Ok(base(0x26)));
    assert_eq!(cpu.step(), Ok(base(0x2E)));
    assert_eq!(cpu.registers.get_hl(), 0xC010);
    assert_eq!(cpu.step(), Ok(base(0x36)));
    assert_eq!(cpu.bus.read_byte(0xC010), 0xAB);
    assert_eq!(cpu.pc, 0x0106);
    assert_eq!(cpu.step(), Ok(base(0x46)));
    assert_eq!(cpu.registers.b, 0xAB);
    assert_eq!(cpu.step(), Ok(base(0x48)));
    assert_eq!(cpu.registers.c, 0xAB);
    cpu.registers.c = 0x5A;
    assert_eq!(cpu.step(), Ok(base(0x71)));
    assert_eq!(cpu.bus.read_byte(0xC010), 0x5A);
    assert_eq!(cpu.step(), Ok(base(0x7E)));
    assert_eq!(cpu.registers.a, 0x5A);
    assert_eq!(cpu.pc, 0x010A);
    assert_eq!(cpu.registers.flags_as_byte(), 0xB0);
}

#[test]
fn sixteen_bit_immediates_are_little_endian() {
    // LD BC,0x1234; LD DE,0x5678; LD HL,0x9ABC; LD SP,0xDFFE
    let mut cpu =
        machine_with(&[0x01, 0x34, 0x12, 0x11, 0x78, 0x56, 0x21, 0xBC, 0x9A, 0x31, 0xFE, 0xDF]);
    assert_eq!(cpu.step(), Ok(base(0x01)));
    assert_eq!(cpu.step(), Ok(base(0x11)));
    assert_eq!(cpu.step(), Ok(base(0x21)));
    assert_eq!(cpu.step(), Ok(base(0x31)));
    assert_eq!(cpu.registers.get_bc(), 0x1234);
    assert_eq!(cpu.registers.get_de(), 0x5678);
    assert_eq!(cpu.registers.get_hl(), 0x9ABC);
    assert_eq!(cpu.sp, 0xDFFE);
    assert_eq!(cpu.pc, 0x010C);
}

#[test]
fn alu_instructions_take_registers_memory_and_immediates() {
    // LD A,0x0F; ADD A,0x01; LD B,0x10; SUB B; LD HL,0xC000; LD (HL),0x3C; OR (HL); CP 0x3C
    let mut cpu = machine_with(&[
        0x3E, 0x0F, 0xC6, 0x01, 0x06, 0x10, 0x90, 0x21, 0x00, 0xC0, 0x36, 0x3C, 0xB6, 0xFE, 0x3C,
    ]);
    assert_eq!(cpu.step(), Ok(base(0x3E)));
    assert_eq!(cpu.step(), Ok(base(0xC6)));
    assert_eq!(cpu.registers.a, 0x10);
    assert_eq!(cpu.registers.f, flags(false, false, true, false));
    assert_eq!(cpu.step(), Ok(base(0x06)));
    assert_eq!(cpu.step(), Ok(base(0x90)));
    assert_eq!(cpu.registers.a, 0x00);
    assert_eq!(cpu.registers.f, flags(true, true, false, false));
    assert_eq!(cpu.step(), Ok(base(0x21)));
    assert_eq!(cpu.step(), Ok(base(0x36)));
    assert_eq!(cpu.step(), Ok(base(0xB6)));
    assert_eq!(cpu.registers.a, 0x3C);
    assert_eq!(cpu.registers.f, flags(false, false, false, false));
    assert_eq!(cpu.step(), Ok(base(0xFE)));
    assert_eq!(cpu.registers.a, 0x3C);
    assert_eq!(cpu.registers.f, flags(true, true, false, false));
    assert_eq!(cpu.pc, 0x010F);
}

#[test]
fn inc_and_dec_of_registers_and_memory() {
    // LD HL,0xC000; LD (HL),0xFF; INC (HL); DEC (HL); LD C,0x0F; INC C; DEC C
    let mut cpu =
        machine_with(&[0x21, 0x00, 0xC0, 0x36, 0xFF, 0x34, 0x35, 0x0E, 0x0F, 0x0C, 0x0D]);
    cpu.registers.f = flags(false, false, false, false);
    assert_eq!(cpu.step(), Ok(base(0x21)));
    assert_eq!(cpu.step(), Ok(base(0x36)));
    assert_eq!(cpu.step(), Ok(base(0x34)));
    assert_eq!(cpu.bus.read_byte(0xC000), 0x00);
    assert_eq!(cpu.registers.f, flags(true, false, true, false));
    assert_eq!(cpu.step(), Ok(base(0x35)));
    assert_eq!(cpu.bus.read_byte(0xC000), 0xFF);
    assert_eq!(cpu.registers.f, flags(false, true, true, false));
    assert_eq!(cpu.step(), Ok(base(0x0E)));
    assert_eq!(cpu.step(), Ok(base(0x0C)));
    assert_eq!(cpu.registers.c, 0x10);
    assert_eq!(cpu.registers.f, flags(false, false, true, false));
    assert_eq!(cpu.step(), Ok(base(0x0D)));
    assert_eq!(cpu.registers.c, 0x0F);
    assert_eq!(cpu.registers.f, flags(false, true, true, false));
}

#[test]
fn sixteen_bit_counts_and_additions() {
    // LD BC,0xFFFF; INC BC; DEC BC; LD HL,0x0FFF; ADD HL,BC; DEC SP; ADD HL,SP
    let mut cpu = machine_with(&[0x01, 0xFF, 0xFF, 0x03, 0x0B, 0x21, 0xFF, 0x0F, 0x09, 0x3B, 0x39]);
    let start = cpu.registers.f;
    assert_eq!(cpu.step(), Ok(base(0x01)));
    assert_eq!(cpu.step(), Ok(base(0x03)));
    assert_eq!(cpu.registers.get_bc(), 0x0000);
    assert_eq!(cpu.registers.f, start);
    assert_eq!(cpu.step(), Ok(base(0x0B)));
    assert_eq!(cpu.registers.get_bc(), 0xFFFF);
    assert_eq!(cpu.registers.f, start);
    assert_eq!(cpu.step(), Ok(base(0x21)));
    assert_eq!(cpu.step(), Ok(base(0x09)));
    assert_eq!(cpu.registers.get_hl(), 0x0FFE);
    assert_eq!(cpu.registers.f, flags(true, false, true, true));
    assert_eq!(cpu.step(), Ok(base(0x3B)));
    assert_eq!(cpu.sp, 0xFFFD);
    assert_eq!(cpu.step(), Ok(base(0x39)));
    assert_eq!(cpu.registers.get_hl(), 0x0FFB);
    assert_eq!(cpu.registers.f, flags(true, false, true, true));
}

#[test]
fn a_countdown_loop_runs_to_its_end() {
    // LD B,3; loop: DEC B; JR NZ,loop; HALT
    let mut cpu = machine_with(&[0x06, 0x03, 0x05, 0x20, 0xFD, 0x76]);
    assert_eq!(cpu.step(), Ok(base(0x06)));
    for left in [2u8, 1] {
        assert_eq!(cpu.step(), Ok(base(0x05)));
        assert_eq!(cpu.registers.b, left);
        assert_eq!(cpu.step(), Ok(base(0x20)));
        assert_eq!(cpu.pc, 0x0102);
    }
    assert_eq!(cpu.step(), Ok(base(0x05)));
    assert_eq!(cpu.registers.b, 0);
    assert_eq!(cpu.step(), Ok(base(0x20)));
    assert_eq!(cpu.pc, 0x0105);
    assert_eq!(cpu.step(), Err(CpuError::UnsupportedOpcode(base(0x76))));
    assert_eq!(cpu.pc, 0x0106);
}

#[test]
fn jumps_absolute_and_relative() {
    // JP 0x0150
    let mut cpu = machine_with(&[0xC3, 0x50, 0x01]);
    assert_eq!(cpu.step(), Ok(base(0xC3)));
    assert_eq!(cpu.pc, 0x0150);

    // JR +0x10
    let mut cpu = machine_with(&[0x18, 0x10]);
    assert_eq!(cpu.step(), Ok(base(0x18)));
    assert_eq!(cpu.pc, 0x0112);

    // JR -2: back to itself
    let mut cpu = machine_with(&[0x18, 0xFE]);
    assert_eq!(cpu.step(), Ok(base(0x18)));
    assert_eq!(cpu.pc, 0x0100);
}

#[test]
fn conditional_jumps_consume_their_operands_either_way() {
    // Z and C are set at power-on.
    for (opcode, taken) in [(0xC2u8, false), (0xCA, true), (0xD2, false), (0xDA, true)] {
        let mut cpu = machine_with(&[opcode, 0x00, 0x20]);
        assert_eq!(cpu.step(), Ok(base(opcode)));
        assert_eq!(cpu.pc, if taken { 0x2000 } else { 0x0103 });
        assert_eq!(cpu.sp, 0xFFFE);
    }
    for (opcode, taken) in [(0x20u8, false), (0x28, true), (0x30, false), (0x38, true)] {
        let mut cpu = machine_with(&[opcode, 0x10]);
        assert_eq!(cpu.step(), Ok(base(opcode)));
        assert_eq!(cpu.pc, if taken { 0x0112 } else { 0x0102 });
    }
    for (opcode, taken) in [(0xC2u8, true), (0xCA, false), (0xD2, true), (0xDA, false)] {
        let mut cpu = machine_with(&[opcode, 0x00, 0x20]);
        cpu.registers.f = flags(false, false, false, false);
        assert_eq!(cpu.step(), Ok(base(opcode)));
        assert_eq!(cpu.pc, if taken { 0x2000 } else { 0x0103 });
    }
}

#[test]
fn call_and_return_through_the_stack() {
    // CALL 0x2000 ... at 0x2000: RET
    let mut cpu = machine_with(&[0xCD, 0x00, 0x20]);
    cpu.bus.write_byte(0x2000, 0xC9);
    assert_eq!(cpu.step(), Ok(base(0xCD)));
    assert_eq!(cpu.pc, 0x2000);
    assert_eq!(cpu.sp, 0xFFFC);
    assert_eq!(cpu.bus.read_byte(0xFFFD), 0x01);
    assert_eq!(cpu.bus.read_byte(0xFFFC), 0x03);
    assert_eq!(cpu.step(), Ok(base(0xC9)));
    assert_eq!(cpu.pc, 0x0103);
    assert_eq!(cpu.sp, 0xFFFE);
}

#[test]
fn a_conditional_call_that_is_not_taken_only_skips_its_operand() {
    // CALL NZ,0x2000 with Z set
    let mut cpu = machine_with(&[0xC4, 0x00, 0x20]);
    cpu.bus.write_byte(0xFFFD, 0xAA);
    cpu.bus.write_byte(0xFFFC, 0xBB);
    let before = cpu.registers;
    assert_eq!(cpu.step(), Ok(base(0xC4)));
    assert_eq!(cpu.pc, 0x0103);
    assert_eq!(cpu.sp, 0xFFFE);
    assert_eq!(cpu.bus.read_byte(0xFFFD), 0xAA);
    assert_eq!(cpu.bus.read_byte(0xFFFC), 0xBB);
    assert_eq!(cpu.registers, before);
}

#[test]
fn a_conditional_call_that_is_taken_pushes_the_return_address() {
    // CALL Z,0x2000 with Z set
    let mut cpu = machine_with(&[0xCC, 0x00, 0x20]);
    assert_eq!(cpu.step(), Ok(base(0xCC)));
    assert_eq!(cpu.pc, 0x2000);
    assert_eq!(cpu.sp, 0xFFFC);
    assert_eq!(cpu.bus.read_word(0xFFFC), 0x0103);
}

#[test]
fn conditional_returns() {
    // RET NC with C set: not taken. RET C: taken.
    let mut cpu = machine_with(&[0xD0, 0xD8]);
    cpu.push(0x4321);
    assert_eq!(cpu.step(), Ok(base(0xD0)));
    assert_eq!(cpu.pc, 0x0101);
    assert_eq!(cpu.sp, 0xFFFC);
    assert_eq!(cpu.step(), Ok(base(0xD8)));
    assert_eq!(cpu.pc, 0x4321);
    assert_eq!(cpu.sp, 0xFFFE);
}

#[test]
fn restarts_call_their_vector() {
    for (opcode, vector) in [
        (0xC7u8, 0x0000u16),
        (0xCF, 0x0008),
        (0xD7, 0x0010),
        (0xDF, 0x0018),
        (0xE7, 0x0020),
        (0xEF, 0x0028),
        (0xF7, 0x0030),
        (0xFF, 0x0038),
    ] {
        let mut cpu = machine_with(&[opcode]);
        assert_eq!(cpu.step(), Ok(base(opcode)));
        assert_eq!(cpu.pc, vector);
        assert_eq!(cpu.sp, 0xFFFC);
        assert_eq!(cpu.bus.read_word(0xFFFC), 0x0101);
    }
}

#[test]
fn push_and_pop_move_pairs() {
    // LD BC,0x1234; PUSH BC; POP DE; PUSH AF; POP HL
    let mut cpu = machine_with(&[0x01, 0x34, 0x12, 0xC5, 0xD1, 0xF5, 0xE1]);
    assert_eq!(cpu.step(), Ok(base(0x01)));
    assert_eq!(cpu.step(), Ok(base(0xC5)));
    assert_eq!(cpu.sp, 0xFFFC);
    assert_eq!(cpu.bus.read_byte(0xFFFD), 0x12);
    assert_eq!(cpu.bus.read_byte(0xFFFC), 0x34);
    assert_eq!(cpu.step(), Ok(base(0xD1)));
    assert_eq!(cpu.registers.get_de(), 0x1234);
    assert_eq!(cpu.sp, 0xFFFE);
    assert_eq!(cpu.step(), Ok(base(0xF5)));
    assert_eq!(cpu.step(), Ok(base(0xE1)));
    assert_eq!(cpu.registers.get_hl(), 0x01B0);
    assert_eq!(cpu.sp, 0xFFFE);
}

#[test]
fn pop_af_drops_the_low_nibble() {
    // POP AF
    let mut cpu = machine_with(&[0xF1]);
    cpu.push(0x12FF);
    assert_eq!(cpu.step(), Ok(base(0xF1)));
    assert_eq!(cpu.registers.a, 0x12);
    assert_eq!(cpu.registers.f, flags(true, true, true, true));
    assert_eq!(cpu.registers.get_af(), 0x12F0);
    assert_eq!(cpu.sp, 0xFFFE);
}

#[test]
fn the_lead_in_byte_selects_the_extended_table() {
    // SWAP A
    let mut cpu = machine_with(&[0xCB, 0x37]);
    cpu.registers.a = 0xF0;
    assert_eq!(cpu.step(), Ok(extended(0x37)));
    assert_eq!(cpu.registers.a, 0x0F);
    assert_eq!(cpu.registers.f, flags(false, false, false, false));
    assert_eq!(cpu.pc, 0x0102);
}

#[test]
fn extended_instructions_on_registers_and_memory() {
    // BIT 7,H; SET 0,(HL); RES 0,(HL); RL C; SRA (HL)
    let mut cpu = machine_with(&[0xCB, 0x7C, 0xCB, 0xC6, 0xCB, 0x86, 0xCB, 0x11, 0xCB, 0x2E]);
    cpu.registers.set_hl(0xC000);
    cpu.registers.f = flags(false, false, false, true);
    assert_eq!(cpu.step(), Ok(extended(0x7C)));
    assert_eq!(cpu.registers.f, flags(false, false, true, true));
    assert_eq!(cpu.registers.h, 0xC0);
    assert_eq!(cpu.step(), Ok(extended(0xC6)));
    assert_eq!(cpu.bus.read_byte(0xC000), 0x01);
    assert_eq!(cpu.registers.f, flags(false, false, true, true));
    assert_eq!(cpu.step(), Ok(extended(0x86)));
    assert_eq!(cpu.bus.read_byte(0xC000), 0x00);
    cpu.registers.c = 0x80;
    assert_eq!(cpu.step(), Ok(extended(0x11)));
    assert_eq!(cpu.registers.c, 0x01);
    assert_eq!(cpu.registers.f, flags(false, false, false, true));
    cpu.bus.write_byte(0xC000, 0x81);
    assert_eq!(cpu.step(), Ok(extended(0x2E)));
    assert_eq!(cpu.bus.read_byte(0xC000), 0xC0);
    assert_eq!(cpu.registers.f, flags(false, false, false, true));
    assert_eq!(cpu.pc, 0x010A);
}

#[test]
fn every_extended_opcode_has_a_handler() {
    for byte in 0u8..=255 {
        let mut cpu = machine_with(&[0xCB, byte]);
        assert!(decode(extended(byte)).is_some());
        assert_eq!(cpu.step(), Ok(extended(byte)));
        assert_eq!(cpu.pc, 0x0102);
        assert_eq!(cpu.sp, 0xFFFE);
    }
}

#[test]
fn the_base_table_has_its_handlers() {
    let supported = (0u8..=255).filter(|byte| decode(base(*byte)).is_some()).count();
    assert_eq!(supported, 212);
    assert_eq!(decode(base(0xCB)), None);
    assert_eq!(decode(base(0x76)), None);
    for byte in 0x40u8..=0xBF {
        assert_eq!(decode(base(byte)).is_some(), byte != 0x76);
    }
}

#[test]
fn opcodes_decode_to_their_instructions() {
    assert_eq!(decode(base(0x00)), Some(Instruction::Nop));
    assert_eq!(
        decode(base(0x06)),
        Some(Instruction::LoadImmediate { dst: Operand8::Register(Reg8::B) })
    );
    assert_eq!(decode(base(0x36)), Some(Instruction::LoadImmediate { dst: Operand8::HlIndirect }));
    assert_eq!(decode(base(0x31)), Some(Instruction::LoadImmediate16 { dst: Reg16::SP }));
    assert_eq!(
        decode(base(0x7E)),
        Some(Instruction::Load { dst: Operand8::Register(Reg8::A), src: Operand8::HlIndirect })
    );
    assert_eq!(
        decode(base(0x41)),
        Some(Instruction::Load {
            dst: Operand8::Register(Reg8::B),
            src: Operand8::Register(Reg8::C)
        })
    );
    assert_eq!(
        decode(base(0x80)),
        Some(Instruction::Alu { op: AluOp::Add, src: Operand8::Register(Reg8::B) })
    );
    assert_eq!(
        decode(base(0xBF)),
        Some(Instruction::Alu { op: AluOp::Cp, src: Operand8::Register(Reg8::A) })
    );
    assert_eq!(
        decode(base(0xAE)),
        Some(Instruction::Alu { op: AluOp::Xor, src: Operand8::HlIndirect })
    );
    assert_eq!(decode(base(0xDE)), Some(Instruction::AluImmediate { op: AluOp::Sbc }));
    assert_eq!(decode(base(0x3C)), Some(Instruction::Inc { target: Operand8::Register(Reg8::A) }));
    assert_eq!(decode(base(0x35)), Some(Instruction::Dec { target: Operand8::HlIndirect }));
    assert_eq!(decode(base(0x13)), Some(Instruction::Inc16 { target: Reg16::DE }));
    assert_eq!(decode(base(0x2B)), Some(Instruction::Dec16 { target: Reg16::HL }));
    assert_eq!(decode(base(0x09)), Some(Instruction::AddHl { src: Reg16::BC }));
    assert_eq!(decode(base(0xC3)), Some(Instruction::Jump));
    assert_eq!(decode(base(0xDA)), Some(Instruction::JumpIf { condition: Condition::Carry }));
    assert_eq!(decode(base(0x18)), Some(Instruction::JumpRelative));
    assert_eq!(
        decode(base(0x20)),
        Some(Instruction::JumpRelativeIf { condition: Condition::NotZero })
    );
    assert_eq!(decode(base(0xCD)), Some(Instruction::Call));
    assert_eq!(decode(base(0xCC)), Some(Instruction::CallIf { condition: Condition::Zero }));
    assert_eq!(decode(base(0xC9)), Some(Instruction::Return));
    assert_eq!(decode(base(0xD0)), Some(Instruction::ReturnIf { condition: Condition::NotCarry }));
    assert_eq!(decode(base(0xEF)), Some(Instruction::Restart { vector: 0x28 }));
    assert_eq!(decode(base(0xF5)), Some(Instruction::Push { pair: StackPair::AF }));
    assert_eq!(decode(base(0xD1)), Some(Instruction::Pop { pair: StackPair::DE }));
    assert_eq!(
        decode(extended(0x00)),
        Some(Instruction::Shift { op: ShiftOp::Rlc, target: Operand8::Register(Reg8::B) })
    );
    assert_eq!(
        decode(extended(0x3F)),
        Some(Instruction::Shift { op: ShiftOp::Srl, target: Operand8::Register(Reg8::A) })
    );
    assert_eq!(
        decode(extended(0x7E)),
        Some(Instruction::TestBit { bit: 7, target: Operand8::HlIndirect })
    );
    assert_eq!(
        decode(extended(0x87)),
        Some(Instruction::ResetBit { bit: 0, target: Operand8::Register(Reg8::A) })
    );
    assert_eq!(
        decode(extended(0xFD)),
        Some(Instruction::SetBit { bit: 7, target: Operand8::Register(Reg8::L) })
    );
}

#[test]
fn execute_carries_out_a_decoded_instruction() {
    let mut cpu = machine_with(&[0x99]);
    cpu.execute(Instruction::LoadImmediate { dst: Operand8::Register(Reg8::E) });
    assert_eq!(cpu.registers.e, 0x99);
    assert_eq!(cpu.pc, 0x0101);
    cpu.execute(Instruction::Load {
        dst: Operand8::Register(Reg8::A),
        src: Operand8::Register(Reg8::E),
    });
    assert_eq!(cpu.registers.a, 0x99);
    cpu.execute(Instruction::Alu { op: AluOp::Add, src: Operand8::Register(Reg8::A) });
    assert_eq!(cpu.registers.a, 0x32);
    assert_eq!(cpu.registers.f, flags(false, false, true, true));
    cpu.execute(Instruction::Restart { vector: 0x10 });
    assert_eq!(cpu.pc, 0x0010);
    assert_eq!(cpu.bus.read_word(0xFFFC), 0x0101);
}

#[test]
fn operands_and_conditions_by_name() {
    let mut cpu = CPU::new();
    cpu.registers.set_hl(0xC123);
    cpu.write_operand(Operand8::HlIndirect, 0x5A);
    assert_eq!(cpu.bus.read_byte(0xC123), 0x5A);
    assert_eq!(cpu.read_operand(Operand8::HlIndirect), 0x5A);
    cpu.write_operand(Operand8::Register(Reg8::D), 0x77);
    assert_eq!(cpu.registers.d, 0x77);
    assert_eq!(cpu.read_operand(Operand8::Register(Reg8::D)), 0x77);
    cpu.registers.f = flags(true, false, false, false);
    assert_eq!(cpu.condition_holds(Condition::Zero), true);
    assert_eq!(cpu.condition_holds(Condition::NotZero), false);
    assert_eq!(cpu.condition_holds(Condition::Carry), false);
    assert_eq!(cpu.condition_holds(Condition::NotCarry), true);
    assert_eq!(cpu.get_stack_pair(StackPair::AF), 0x0180);
    cpu.set_stack_pair(StackPair::AF, 0xFF1F);
    assert_eq!(cpu.registers.a, 0xFF);
    assert_eq!(cpu.registers.f, flags(false, false, false, true));
    cpu.set_stack_pair(StackPair::BC, 0x0102);
    assert_eq!(cpu.get_stack_pair(StackPair::BC), 0x0102);
}

#[test]
fn the_dispatch_table_holds_what_each_opcode_decodes_to() {
    let table = DispatchTable::new();
    for byte in 0u8..=255 {
        assert_eq!(table.lookup(base(byte)), decode(base(byte)));
        assert_eq!(table.lookup(extended(byte)), decode(extended(byte)));
    }
    assert_eq!(
        table.lookup(base(0x06)),
        Some(Instruction::LoadImmediate { dst: Operand8::Register(Reg8::B) })
    );
    assert_eq!(table.lookup(base(0xD3)), None);
    assert_eq!(
        table.lookup(extended(0x37)),
        Some(Instruction::Shift { op: ShiftOp::Swap, target: Operand8::Register(Reg8::A) })
    );
}
