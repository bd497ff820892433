use gb_core::addr::AddrSpace;
use gb_core::cpu::{Register, Register16, CPU};
use gb_core::instructions::exec_instruction;

#[test]
fn af_writes_keep_the_flag_low_nibble_zero() {
    let mut cpu = CPU::new();
    cpu.set_reg16(Register16::AF, 0xABCD);
    assert_eq!(cpu.a, 0xAB);
    assert_eq!(cpu.f, 0xC0);
    assert_eq!(cpu.get_reg16(Register16::AF), 0xABC0);
    cpu.set_reg(Register::F, 0xFF);
    assert_eq!(cpu.f, 0xF0);
}

#[test]
fn pop_af_masks_the_flag_low_nibble() {
    let mut addr_space = AddrSpace::empty();
    let mut cpu = CPU::new();
    cpu.sp = 0xFF80;
    addr_space.write(0xFF80, 0xFF);
    addr_space.write(0xFF81, 0x12);
    exec_instruction(0xF1, &mut cpu, &mut addr_space);
    assert_eq!(cpu.a, 0x12);
    assert_eq!(cpu.f, 0xF0);
    assert_eq!(cpu.sp, 0xFF82);
}

#[test]
fn register_pairs_read_high_byte_first() {
    let mut cpu = CPU::new();
    cpu.set_reg16(Register16::BC, 0x1234);
    assert_eq!(cpu.b, 0x12);
    assert_eq!(cpu.c, 0x34);
    assert_eq!(cpu.bc(), 0x1234);
    cpu.set_reg16(Register16::DE, 0x5678);
    assert_eq!(cpu.de(), 0x5678);
    cpu.set_reg16(Register16::HL, 0x9ABC);
    assert_eq!(cpu.hl(), 0x9ABC);
}

#[test]
fn next_instr_advances_with_wraparound() {
    let mut addr_space = AddrSpace::empty();
    let mut cpu = CPU::new();
    addr_space.write(0xFFFF, 0x77);
    cpu.pc = 0xFFFF;
    let instr = cpu.next_instr(&addr_space);
    assert_eq!(instr, 0x77);
    assert_eq!(cpu.pc, 0x0000);
}

#[test]
fn flag_setters_touch_only_their_bit() {
    let mut cpu = CPU::new();
    cpu.set_flags(true, true, true, true);
    assert_eq!(cpu.f, 0xF0);
    cpu.set_sub_flag(false);
    assert!(cpu.zero_flag());
    assert!(!cpu.sub_flag());
    assert!(cpu.half_carry_flag());
    assert!(cpu.carry_flag());
    cpu.set_carry_flag(false);
    cpu.set_zero_flag(false);
    cpu.set_half_carry_flag(false);
    assert_eq!(cpu.f, 0x00);
}
