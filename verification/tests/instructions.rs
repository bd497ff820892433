use gb_core::addr::AddrSpace;
use gb_core::cpu::{Register, Register16, CPU};
use gb_core::instructions::{
    add_hl_nn, add_sp_n, bit_n_r, daa, exec_instruction, rl_r, rlc_r, rr_r, rrc_r, sla_r, sra_r,
    srl_r, swap_r, xor_a_n,
};

#[test]
fn test_bit_n_r() {
    let mut cpu = CPU::new();

    cpu.set_reg(Register::A, 0xFF);
    bit_n_r(1, Register::A, &mut cpu);
    assert!(!cpu.zero_flag());
}

#[test]
fn test_rlc_r() {
    let mut cpu = CPU::new();

    cpu.set_reg(Register::A, 0b10110010);

    rlc_r(Register::A, &mut cpu);
    assert!(cpu.get_reg(Register::A) == 0b01100101);
    assert!(!cpu.zero_flag());
    assert!(cpu.carry_flag());
}

#[test]
fn test_rl_r() {
    let mut cpu = CPU::new();

    cpu.set_reg(Register::A, 0b10110010);

    rl_r(Register::A, &mut cpu);
    assert!(cpu.get_reg(Register::A) == 0b01100100);
    assert!(!cpu.zero_flag());
    assert!(cpu.carry_flag());
}

#[test]
fn test_rrc_r() {
    let mut cpu = CPU::new();

    cpu.set_reg(Register::A, 0b10110011);

    rrc_r(Register::A, &mut cpu);
    assert!(cpu.get_reg(Register::A) == 0b11011001);
    assert!(!cpu.zero_flag());
    assert!(cpu.carry_flag());
}

#[test]
fn test_rr_r() {
    let mut cpu = CPU::new();

    cpu.set_reg(Register::A, 0b10110011);

    rr_r(Register::A, &mut cpu);
    assert!(cpu.get_reg(Register::A) == 0b01011001);
    assert!(!cpu.zero_flag());
    assert!(cpu.carry_flag());
}

#[test]
fn test_add_hl_nn() {
    let mut cpu = CPU::new();

    cpu.set_reg16(Register16::HL, 0xFFFF);

    add_hl_nn(0x10, &mut cpu);

    assert_eq!(cpu.hl(), 0x000F);
    assert!(cpu.half_carry_flag());
    assert!(cpu.carry_flag());

    cpu.set_reg16(Register16::HL, 0x0FFF);

    add_hl_nn(0x10, &mut cpu);

    assert_eq!(cpu.hl(), 0x100F);
    assert!(cpu.half_carry_flag());
    assert!(!cpu.carry_flag());

    cpu.set_reg16(Register16::HL, 0x00FF);

    add_hl_nn(0x10, &mut cpu);

    assert_eq!(cpu.hl(), 0x010F);
    assert!(!cpu.half_carry_flag());
    assert!(!cpu.carry_flag());
}

#[test]
fn test_add_sp_n() {
    let mut cpu = CPU::new();

    cpu.set_reg16(Register16::SP, 0xFFFF);

    add_sp_n(0x10, &mut cpu);

    assert_eq!(cpu.sp, 0x000F);
    assert!(!cpu.half_carry_flag());
    assert!(cpu.carry_flag());

    cpu.set_reg16(Register16::SP, 0x1000);

    add_sp_n(-0x1, &mut cpu);

    assert_eq!(cpu.sp, 0x0FFF);
    assert!(!cpu.half_carry_flag());
    assert!(!cpu.carry_flag());
}

#[test]
fn test_xor_n() {
    let mut cpu = CPU::new();

    cpu.set_reg(Register::A, 0b01010101);

    xor_a_n(0b01010101, &mut cpu);

    assert_eq!(cpu.a, 0x0);
    assert!(cpu.zero_flag());

    cpu.set_reg(Register::A, 0b01010101);

    xor_a_n(0b10101010, &mut cpu);

    assert_eq!(cpu.a, 0xFF);
    assert!(!cpu.zero_flag());
}

#[test]
fn add_family_wraps_modulo_256() {
    let mut cpu = CPU::new();

    // 8-bit addition wraps: 0xF0 + 0x20 = 0x110 -> 0x10, carry set
    cpu.set_reg(Register::A, 0xF0);
    cpu.set_reg(Register::B, 0x20);
    let cycles = exec_instruction(0x80, &mut cpu, &mut AddrSpace::empty());
    assert_eq!(cycles, 1);
    assert_eq!(cpu.a, 0x10);
    assert!(cpu.carry_flag());
    assert!(!cpu.zero_flag());
    assert!(!cpu.sub_flag());

    // half-carry: 0x0F + 0x01 crosses the nibble
    cpu.set_reg(Register::A, 0x0F);
    cpu.set_reg(Register::B, 0x01);
    exec_instruction(0x80, &mut cpu, &mut AddrSpace::empty());
    assert_eq!(cpu.a, 0x10);
    assert!(cpu.half_carry_flag());
    assert!(!cpu.carry_flag());
}

#[test]
fn sub_family_flags() {
    let mut cpu = CPU::new();

    // 0x10 - 0x20 wraps to 0xF0 with a borrow
    cpu.set_reg(Register::A, 0x10);
    cpu.set_reg(Register::C, 0x20);
    exec_instruction(0x91, &mut cpu, &mut AddrSpace::empty());
    assert_eq!(cpu.a, 0xF0);
    assert!(cpu.carry_flag());
    assert!(cpu.sub_flag());

    // compare leaves the accumulator untouched and sets zero on equality
    cpu.set_reg(Register::A, 0x42);
    cpu.set_reg(Register::D, 0x42);
    exec_instruction(0xBA, &mut cpu, &mut AddrSpace::empty());
    assert_eq!(cpu.a, 0x42);
    assert!(cpu.zero_flag());
    assert!(cpu.sub_flag());
}

#[test]
fn adc_and_sbc_use_the_carry() {
    let mut cpu = CPU::new();

    cpu.set_flags(false, false, false, true);
    cpu.set_reg(Register::A, 0x01);
    cpu.set_reg(Register::B, 0x01);
    exec_instruction(0x88, &mut cpu, &mut AddrSpace::empty());
    assert_eq!(cpu.a, 0x03);

    cpu.set_flags(false, false, false, true);
    cpu.set_reg(Register::A, 0x03);
    cpu.set_reg(Register::B, 0x01);
    exec_instruction(0x98, &mut cpu, &mut AddrSpace::empty());
    assert_eq!(cpu.a, 0x01);
    assert!(cpu.sub_flag());
}

#[test]
fn inc_dec_leave_the_carry_alone() {
    let mut cpu = CPU::new();

    cpu.set_flags(false, false, false, true);
    cpu.set_reg(Register::E, 0xFF);
    exec_instruction(0x1C, &mut cpu, &mut AddrSpace::empty());
    assert_eq!(cpu.get_reg(Register::E), 0x00);
    assert!(cpu.zero_flag());
    assert!(cpu.half_carry_flag());
    assert!(cpu.carry_flag());

    exec_instruction(0x1D, &mut cpu, &mut AddrSpace::empty());
    assert_eq!(cpu.get_reg(Register::E), 0xFF);
    assert!(cpu.sub_flag());
    assert!(cpu.half_carry_flag());
    assert!(cpu.carry_flag());
}

#[test]
fn daa_adjusts_bcd_sums() {
    let mut cpu = CPU::new();

    // 0x15 + 0x27 = 0x3C; the adjustment makes the BCD sum 0x42
    cpu.set_flags(false, false, false, false);
    cpu.set_reg(Register::A, 0x3C);
    daa(&mut cpu);
    assert_eq!(cpu.a, 0x42);
    assert!(!cpu.carry_flag());

    // 0x9A needs both adjustments and carries out
    cpu.set_flags(false, false, false, false);
    cpu.set_reg(Register::A, 0x9A);
    daa(&mut cpu);
    assert_eq!(cpu.a, 0x00);
    assert!(cpu.zero_flag());
    assert!(cpu.carry_flag());
}

#[test]
fn shifts_have_distinct_edge_rules() {
    let mut cpu = CPU::new();

    cpu.set_flags(false, false, false, false);
    cpu.set_reg(Register::B, 0b10000001);
    sla_r(Register::B, &mut cpu);
    assert_eq!(cpu.get_reg(Register::B), 0b00000010);
    assert!(cpu.carry_flag());

    cpu.set_reg(Register::C, 0b10000001);
    sra_r(Register::C, &mut cpu);
    assert_eq!(cpu.get_reg(Register::C), 0b11000000);
    assert!(cpu.carry_flag());

    cpu.set_reg(Register::D, 0b10000001);
    srl_r(Register::D, &mut cpu);
    assert_eq!(cpu.get_reg(Register::D), 0b01000000);
    assert!(cpu.carry_flag());

    cpu.set_reg(Register::H, 0xA5);
    swap_r(Register::H, &mut cpu);
    assert_eq!(cpu.get_reg(Register::H), 0x5A);
}

#[test]
fn dispatch_reads_immediates_and_extended_table() {
    let mut addr_space = AddrSpace::empty();
    let mut cpu = CPU::new();

    // LD A, n at 0x0200
    addr_space.write(0x0200, 0x42);
    cpu.pc = 0x0200;
    let cycles = exec_instruction(0x3E, &mut cpu, &mut addr_space);
    assert_eq!(cycles, 2);
    assert_eq!(cpu.a, 0x42);
    assert_eq!(cpu.pc, 0x0201);

    // the 0xCB prefix fetches one more byte: SWAP A
    addr_space.write(0x0201, 0x37);
    cpu.a = 0x12;
    let cycles = exec_instruction(0xCB, &mut cpu, &mut addr_space);
    assert_eq!(cycles, 2);
    assert_eq!(cpu.a, 0x21);
    assert_eq!(cpu.pc, 0x0202);

    // an invalid opcode is a one-cycle no-op
    let before = cpu.a;
    let cycles = exec_instruction(0xD3, &mut cpu, &mut addr_space);
    assert_eq!(cycles, 1);
    assert_eq!(cpu.a, before);
}

#[test]
fn call_and_return_use_a_descending_stack() {
    let mut addr_space = AddrSpace::empty();
    let mut cpu = CPU::new();

    cpu.pc = 0x0300;
    cpu.sp = 0xFFFE;
    addr_space.write(0x0300, 0x34);
    addr_space.write(0x0301, 0x12);
    let cycles = exec_instruction(0xCD, &mut cpu, &mut addr_space);
    assert_eq!(cycles, 6);
    assert_eq!(cpu.pc, 0x1234);
    assert_eq!(cpu.sp, 0xFFFC);
    // return address 0x0302 pushed high byte first
    assert_eq!(addr_space.read(0xFFFD), 0x03);
    assert_eq!(addr_space.read(0xFFFC), 0x02);

    let cycles = exec_instruction(0xC9, &mut cpu, &mut addr_space);
    assert_eq!(cycles, 2);
    assert_eq!(cpu.pc, 0x0302);
    assert_eq!(cpu.sp, 0xFFFE);
}

#[test]
fn ldhl_sp_signed_offset_flags() {
    let mut addr_space = AddrSpace::empty();
    let mut cpu = CPU::new();

    cpu.sp = 0xFFF8;
    cpu.pc = 0x0400;
    addr_space.write(0x0400, 0x08);
    exec_instruction(0xF8, &mut cpu, &mut addr_space);
    assert_eq!(cpu.hl(), 0x0000);
    assert!(cpu.half_carry_flag());
    assert!(cpu.carry_flag());
    assert!(!cpu.zero_flag());
    assert!(!cpu.sub_flag());
}
