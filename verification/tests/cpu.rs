use emulator::cpu::CPU;

#[test]
fn test_adc() {
    let mut cpu = CPU::new();
    cpu.registers.a = 0x01;
    cpu.registers.f.carry = true;
    cpu.adc(0x01);
    assert_eq!(cpu.registers.a, 0x03);
    assert_eq!(cpu.registers.f.zero, false);
    assert_eq!(cpu.registers.f.subtract, false);
    assert_eq!(cpu.registers.f.half_carry, false);
    assert_eq!(cpu.registers.f.carry, false);

    cpu.registers.a = 0xFF;
    cpu.registers.f.carry = true;
    cpu.adc(0x01);
    assert_eq!(cpu.registers.a, 0x01);
    assert_eq!(cpu.registers.f.zero, false);
    assert_eq!(cpu.registers.f.subtract, false);
    assert_eq!(cpu.registers.f.half_carry, true);
    assert_eq!(cpu.registers.f.carry, true);
}

#[test]
fn test_add() {
    let mut cpu = CPU::new();
    cpu.registers.a = 0x01;
    cpu.add(0x01);
    assert_eq!(cpu.registers.a, 0x02);
    assert_eq!(cpu.registers.f.zero, false);
    assert_eq!(cpu.registers.f.subtract, false);
    assert_eq!(cpu.registers.f.half_carry, false);
    assert_eq!(cpu.registers.f.carry, false);

    cpu.registers.a = 0xFF;
    cpu.add(0x01);
    assert_eq!(cpu.registers.a, 0x00);
    assert_eq!(cpu.registers.f.zero, true);
    assert_eq!(cpu.registers.f.subtract, false);
    assert_eq!(cpu.registers.f.half_carry, true);
    assert_eq!(cpu.registers.f.carry, true);
}

#[test]
fn test_and() {
    let mut cpu = CPU::new();
    cpu.registers.a = 0x01;
    cpu.and(0x01);
    assert_eq!(cpu.registers.a, 0x01);
    assert_eq!(cpu.registers.f.zero, false);
    assert_eq!(cpu.registers.f.subtract, false);
    assert_eq!(cpu.registers.f.half_carry, true);
    assert_eq!(cpu.registers.f.carry, false);

    cpu.registers.a = 0xFF;
    cpu.and(0x00);
    assert_eq!(cpu.registers.a, 0x00);
    assert_eq!(cpu.registers.f.zero, true);
    assert_eq!(cpu.registers.f.subtract, false);
    assert_eq!(cpu.registers.f.half_carry, true);
    assert_eq!(cpu.registers.f.carry, false);
}

#[test]
fn test_cp() {
    let mut cpu = CPU::new();
    cpu.registers.a = 0x01;
    cpu.cp(0x01);
    assert_eq!(cpu.registers.a, 0x01);
    assert_eq!(cpu.registers.f.zero, true);
    assert_eq!(cpu.registers.f.subtract, true);
    assert_eq!(cpu.registers.f.half_carry, false);
    assert_eq!(cpu.registers.f.carry, false);

    cpu.registers.a = 0x01;
    cpu.cp(0x02);
    assert_eq!(cpu.registers.a, 0x01);
    assert_eq!(cpu.registers.f.zero, false);
    assert_eq!(cpu.registers.f.subtract, true);
    assert_eq!(cpu.registers.f.half_carry, true);
    assert_eq!(cpu.registers.f.carry, true);

    cpu.registers.a = 0x02;
    cpu.cp(0x01);
    assert_eq!(cpu.registers.a, 0x02);
    assert_eq!(cpu.registers.f.zero, false);
    assert_eq!(cpu.registers.f.subtract, true);
    assert_eq!(cpu.registers.f.half_carry, false);
    assert_eq!(cpu.registers.f.carry, false);
}

#[test]
fn test_dec() {
    let mut cpu = CPU::new();
    // DEC leaves C as it finds it: start from a clear carry.
    cpu.registers.f.carry = false;
    cpu.registers.a = 0x01;
    cpu.registers.a = cpu.dec(cpu.registers.a);
    assert_eq!(cpu.registers.a, 0x00);
    assert_eq!(cpu.registers.f.zero, true);
    assert_eq!(cpu.registers.f.subtract, true);
    assert_eq!(cpu.registers.f.half_carry, false);
    assert_eq!(cpu.registers.f.carry, false);

    cpu.registers.a = 0x00;
    cpu.registers.a = cpu.dec(cpu.registers.a);
    assert_eq!(cpu.registers.a, 0xFF);
    assert_eq!(cpu.registers.f.zero, false);
    assert_eq!(cpu.registers.f.subtract, true);
    assert_eq!(cpu.registers.f.half_carry, true);
    assert_eq!(cpu.registers.f.carry, false);
}

#[test]
fn test_inc() {
    let mut cpu = CPU::new();
    // INC leaves C as it finds it: start from a clear carry.
    cpu.registers.f.carry = false;
    cpu.registers.a = 0x01;
    cpu.registers.a = cpu.inc(0x01);
    assert_eq!(cpu.registers.a, 0x02);
    assert_eq!(cpu.registers.f.zero, false);
    assert_eq!(cpu.registers.f.subtract, false);
    assert_eq!(cpu.registers.f.half_carry, false);
    assert_eq!(cpu.registers.f.carry, false);

    cpu.registers.a = 0xFF;
    cpu.registers.a = cpu.inc(0xFF);
    assert_eq!(cpu.registers.a, 0x00);
    assert_eq!(cpu.registers.f.zero, true);
    assert_eq!(cpu.registers.f.subtract, false);
    assert_eq!(cpu.registers.f.half_carry, true);
    assert_eq!(cpu.registers.f.carry, false);
}

#[test]
fn test_or() {
    let mut cpu = CPU::new();
    cpu.registers.a = 0x01;
    cpu.or(0x01);
    assert_eq!(cpu.registers.a, 0x01);
    assert_eq!(cpu.registers.f.zero, false);
    assert_eq!(cpu.registers.f.subtract, false);
    assert_eq!(cpu.registers.f.half_carry, false);
    assert_eq!(cpu.registers.f.carry, false);

    cpu.registers.a = 0x00;
    cpu.or(0x00);
    assert_eq!(cpu.registers.a, 0x00);
    assert_eq!(cpu.registers.f.zero, true);
    assert_eq!(cpu.registers.f.subtract, false);
    assert_eq!(cpu.registers.f.half_carry, false);
    assert_eq!(cpu.registers.f.carry, false);
}

#[test]
fn test_sbc() {
    let mut cpu = CPU::new();
    cpu.registers.a = 0x01;
    cpu.registers.f.carry = true;
    cpu.sbc(0x01);
    assert_eq!(cpu.registers.a, 0xFF);
    assert_eq!(cpu.registers.f.zero, false);
    assert_eq!(cpu.registers.f.subtract, true);
    assert_eq!(cpu.registers.f.half_carry, true);
    assert_eq!(cpu.registers.f.carry, true);

    cpu.registers.a = 0x00;
    cpu.registers.f.carry = true;
    cpu.sbc(0x00);
    assert_eq!(cpu.registers.a, 0xFF);
    assert_eq!(cpu.registers.f.zero, false);
    assert_eq!(cpu.registers.f.subtract, true);
    assert_eq!(cpu.registers.f.half_carry, true);
    assert_eq!(cpu.registers.f.carry, true);
}

#[test]
fn power_on_state_is_the_post_boot_state() {
    let cpu = CPU::new();
    assert_eq!(cpu.registers.a, 0x01);
    assert_eq!(cpu.registers.flags_as_byte(), 0xB0);
    assert_eq!(cpu.registers.f.zero, true);
    assert_eq!(cpu.registers.f.subtract, false);
    assert_eq!(cpu.registers.f.half_carry, true);
    assert_eq!(cpu.registers.f.carry, true);
    assert_eq!(cpu.registers.b, 0x00);
    assert_eq!(cpu.registers.c, 0x13);
    assert_eq!(cpu.registers.d, 0x00);
    assert_eq!(cpu.registers.e, 0xD8);
    assert_eq!(cpu.registers.h, 0x01);
    assert_eq!(cpu.registers.l, 0x4D);
    assert_eq!(cpu.sp, 0xFFFE);
    assert_eq!(cpu.pc, 0x0100);
    assert!(cpu.bus.bytes.iter().all(|byte| *byte == 0));
}

#[test]
fn two_machines_share_nothing() {
    let mut first = CPU::new();
    let second = CPU::new();
    first.registers.a = 0x10;
    first.add(0x22);
    first.bus.write_byte(0xC000, 0x99);
    assert_eq!(first.registers.a, 0x32);
    assert_eq!(second.registers.a, 0x01);
    assert_eq!(second.bus.read_byte(0xC000), 0x00);
}
