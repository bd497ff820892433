use vstd::prelude::*;

use crate::addr::AddrSpace;
use crate::bits::{as_signed8, hi_byte, high8, lo_byte, low8, make_word, sext16, signed16,
    to_signed8, word};
use crate::cpu::{carry_of, flags_byte, half_of, sub_of, zero_of, CPU, Register, Register16};

verus! {

// Wraparound arithmetic on the 16-bit pointers, written as mathematical
// remainders.

pub open spec fn wrap_inc16(v: u16) -> u16 {
    ((v + 1) % 0x10000) as u16
}

pub open spec fn wrap_dec16(v: u16) -> u16 {
    (((v - 1) + 0x10000) % 0x10000) as u16
}

pub open spec fn wrap_dec16_2(v: u16) -> u16 {
    (((v - 2) + 0x10000) % 0x10000) as u16
}

pub open spec fn wrap_inc16_2(v: u16) -> u16 {
    ((v + 2) % 0x10000) as u16
}

/// The register file after one opcode byte has been consumed.
pub open spec fn fetched(c: CPU) -> CPU {
    CPU { pc: wrap_inc16(c.pc), ..c }
}

// 8-bit load instructions.

pub open spec fn spec_ld_r_r(c: CPU, r1: Register, r2: Register) -> CPU {
    c.spec_set_reg(r1, c.spec_reg(r2))
}

/// Copies register `register2` into `register1`.
pub fn ld_r_r(register1: Register, register2: Register, cpu: &mut CPU) -> (cycles: u8)
    ensures
        *final(cpu) == spec_ld_r_r(*old(cpu), register1, register2),
        old(cpu).wf() ==> final(cpu).wf(),
        cycles == 1,
{
    let v: u8 = cpu.get_reg(register2);
    cpu.set_reg(register1, v);
    1
}

pub open spec fn spec_ld_r_n(c: CPU, b: AddrSpace, r: Register) -> CPU {
    fetched(c).spec_set_reg(r, b.mem(c.pc))
}

/// Loads the immediate byte into a register.
pub fn ld_r_n(register: Register, cpu: &mut CPU, addr_space: &AddrSpace) -> (cycles: u8)
    ensures
        *final(cpu) == spec_ld_r_n(*old(cpu), *addr_space, register),
        old(cpu).wf() ==> final(cpu).wf(),
        cycles == 2,
{
    let n: u8 = cpu.next_instr(addr_space);
    cpu.set_reg(register, n);
    2
}

pub open spec fn spec_ld_r_hl(c: CPU, b: AddrSpace, r: Register) -> CPU {
    c.spec_set_reg(r, b.mem(word(c.h, c.l)))
}

/// Loads the byte at the address in HL into a register.
pub fn ld_r_hl(register: Register, cpu: &mut CPU, addr_space: &mut AddrSpace) -> (cycles: u8)
    ensures
        *final(cpu) == spec_ld_r_hl(*old(cpu), *old(addr_space), register),
        *final(addr_space) == *old(addr_space),
        old(cpu).wf() ==> final(cpu).wf(),
        cycles == 2,
{
    let hl_value: u8 = addr_space.read(cpu.hl());
    cpu.set_reg(register, hl_value);
    2
}

/// Stores a register to the address in HL.
pub fn ld_hl_r(register: Register, cpu: &mut CPU, addr_space: &mut AddrSpace) -> (cycles: u8)
    ensures
        AddrSpace::write_rel(
            *old(addr_space),
            word(old(cpu).h, old(cpu).l),
            old(cpu).spec_reg(register),
            *final(addr_space),
        ),
        *final(cpu) == *old(cpu),
        cycles == 2,
{
    let v: u8 = cpu.get_reg(register);
    addr_space.write(cpu.hl(), v);
    2
}

/// Stores the immediate byte to the address in HL.
pub fn ld_hl_n(cpu: &mut CPU, addr_space: &mut AddrSpace) -> (cycles: u8)
    ensures
        AddrSpace::write_rel(
            *old(addr_space),
            word(old(cpu).h, old(cpu).l),
            old(addr_space).mem(old(cpu).pc),
            *final(addr_space),
        ),
        *final(cpu) == fetched(*old(cpu)),
        old(cpu).wf() ==> final(cpu).wf(),
        cycles == 3,
{
    let n: u8 = cpu.next_instr(addr_space);
    addr_space.write(cpu.hl(), n);
    3
}

/// Loads the byte at the address in BC into the accumulator.
pub fn ld_a_bc(cpu: &mut CPU, addr_space: &AddrSpace) -> (cycles: u8)
    ensures
        *final(cpu) == (CPU { a: addr_space.mem(word(old(cpu).b, old(cpu).c)), ..*old(cpu) }),
        old(cpu).wf() ==> final(cpu).wf(),
        cycles == 2,
{
    cpu.a = addr_space.read(cpu.bc());
    2
}

/// Loads the byte at the address in DE into the accumulator.
pub fn ld_a_de(cpu: &mut CPU, addr_space: &AddrSpace) -> (cycles: u8)
    ensures
        *final(cpu) == (CPU { a: addr_space.mem(word(old(cpu).d, old(cpu).e)), ..*old(cpu) }),
        old(cpu).wf() ==> final(cpu).wf(),
        cycles == 2,
{
    cpu.a = addr_space.read(cpu.de());
    2
}

/// Stores the accumulator to the address in BC.
pub fn ld_bc_a(cpu: &CPU, addr_space: &mut AddrSpace) -> (cycles: u8)
    ensures
        AddrSpace::write_rel(*old(addr_space), word(cpu.b, cpu.c), cpu.a, *final(addr_space)),
        cycles == 2,
{
    addr_space.write(cpu.bc(), cpu.a);
    2
}

/// Stores the accumulator to the address in DE.
pub fn ld_de_a(cpu: &CPU, addr_space: &mut AddrSpace) -> (cycles: u8)
    ensures
        AddrSpace::write_rel(*old(addr_space), word(cpu.d, cpu.e), cpu.a, *final(addr_space)),
        cycles == 2,
{
    addr_space.write(cpu.de(), cpu.a);
    2
}

/// The little-endian immediate word at the program counter.
pub open spec fn imm16(c: CPU, b: AddrSpace) -> u16 {
    word(b.mem(wrap_inc16(c.pc)), b.mem(c.pc))
}

/// The register file after both immediate bytes have been consumed.
pub open spec fn fetched2(c: CPU) -> CPU {
    fetched(fetched(c))
}

/// Loads the byte at the immediate absolute address into the accumulator.
pub fn ld_a_nn(cpu: &mut CPU, addr_space: &AddrSpace) -> (cycles: u8)
    ensures
        *final(cpu) == (CPU {
            a: addr_space.mem(imm16(*old(cpu), *addr_space)),
            ..fetched2(*old(cpu))
        }),
        old(cpu).wf() ==> final(cpu).wf(),
        cycles == 4,
{
    let lo: u8 = cpu.next_instr(addr_space);
    let hi: u8 = cpu.next_instr(addr_space);
    let nn: u16 = make_word(hi, lo);
    cpu.a = addr_space.read(nn);
    4
}

/// Stores the accumulator to the immediate absolute address.
pub fn ld_nn_a(cpu: &mut CPU, addr_space: &mut AddrSpace) -> (cycles: u8)
    ensures
        AddrSpace::write_rel(
            *old(addr_space),
            imm16(*old(cpu), *old(addr_space)),
            old(cpu).a,
            *final(addr_space),
        ),
        *final(cpu) == fetched2(*old(cpu)),
        old(cpu).wf() ==> final(cpu).wf(),
        cycles == 4,
{
    let lo: u8 = cpu.next_instr(addr_space);
    let hi: u8 = cpu.next_instr(addr_space);
    let nn: u16 = make_word(hi, lo);
    addr_space.write(nn, cpu.a);
    4
}

/// The high page address selected by an 8-bit offset.
pub open spec fn high_page(off: u8) -> u16 {
    (off as u16) | 0xFF00
}

/// Loads from the high page at offset C into the accumulator.
pub fn ldh_a_c(cpu: &mut CPU, addr_space: &AddrSpace) -> (cycles: u8)
    ensures
        *final(cpu) == (CPU { a: addr_space.mem(high_page(old(cpu).c)), ..*old(cpu) }),
        old(cpu).wf() ==> final(cpu).wf(),
        cycles == 2,
{
    let addr: u16 = (cpu.c as u16) | 0xFF00;
    cpu.a = addr_space.read(addr);
    2
}

/// Stores the accumulator to the high page at offset C.
pub fn ldh_c_a(cpu: &CPU, addr_space: &mut AddrSpace) -> (cycles: u8)
    ensures
        AddrSpace::write_rel(*old(addr_space), high_page(cpu.c), cpu.a, *final(addr_space)),
        cycles == 2,
{
    let addr: u16 = (cpu.c as u16) | 0xFF00;
    addr_space.write(addr, cpu.a);
    2
}

/// Loads from the high page at the immediate offset into the accumulator.
pub fn ldh_a_n(cpu: &mut CPU, addr_space: &AddrSpace) -> (cycles: u8)
    ensures
        *final(cpu) == (CPU {
            a: addr_space.mem(high_page(addr_space.mem(old(cpu).pc))),
            ..fetched(*old(cpu))
        }),
        old(cpu).wf() ==> final(cpu).wf(),
        cycles == 3,
{
    let n: u8 = cpu.next_instr(addr_space);
    let addr: u16 = (n as u16) | 0xFF00;
    cpu.a = addr_space.read(addr);
    3
}

/// Stores the accumulator to the high page at the immediate offset.
pub fn ldh_n_a(cpu: &mut CPU, addr_space: &mut AddrSpace) -> (cycles: u8)
    ensures
        AddrSpace::write_rel(
            *old(addr_space),
            high_page(old(addr_space).mem(old(cpu).pc)),
            old(cpu).a,
            *final(addr_space),
        ),
        *final(cpu) == fetched(*old(cpu)),
        old(cpu).wf() ==> final(cpu).wf(),
        cycles == 3,
{
    let n: u8 = cpu.next_instr(addr_space);
    let addr: u16 = (n as u16) | 0xFF00;
    addr_space.write(addr, cpu.a);
    3
}

/// The register file with HL replaced.
pub open spec fn with_hl(c: CPU, v: u16) -> CPU {
    CPU { h: high8(v), l: low8(v), ..c }
}

/// Loads the byte at HL into the accumulator, then decrements HL.
pub fn ld_a_hl_dec(cpu: &mut CPU, addr_space: &AddrSpace) -> (cycles: u8)
    ensures
        *final(cpu) == with_hl(
            (CPU { a: addr_space.mem(word(old(cpu).h, old(cpu).l)), ..*old(cpu) }),
            wrap_dec16(word(old(cpu).h, old(cpu).l)),
        ),
        old(cpu).wf() ==> final(cpu).wf(),
        cycles == 2,
{
    cpu.a = addr_space.read(cpu.hl());
    let hl: u16 = cpu.hl();
    cpu.set_reg16(Register16::HL, hl.wrapping_sub(1));
    2
}

/// Stores the accumulator to the byte at HL, then decrements HL.
pub fn ld_hl_dec_a(cpu: &mut CPU, addr_space: &mut AddrSpace) -> (cycles: u8)
    ensures
        AddrSpace::write_rel(
            *old(addr_space),
            word(old(cpu).h, old(cpu).l),
            old(cpu).a,
            *final(addr_space),
        ),
        *final(cpu) == with_hl(*old(cpu), wrap_dec16(word(old(cpu).h, old(cpu).l))),
        old(cpu).wf() ==> final(cpu).wf(),
        cycles == 2,
{
    addr_space.write(cpu.hl(), cpu.a);
    let hl: u16 = cpu.hl();
    cpu.set_reg16(Register16::HL, hl.wrapping_sub(1));
    2
}

/// Loads the byte at HL into the accumulator, then increments HL.
pub fn ld_a_hl_inc(cpu: &mut CPU, addr_space: &AddrSpace) -> (cycles: u8)
    ensures
        *final(cpu) == with_hl(
            (CPU { a: addr_space.mem(word(old(cpu).h, old(cpu).l)), ..*old(cpu) }),
            wrap_inc16(word(old(cpu).h, old(cpu).l)),
        ),
        old(cpu).wf() ==> final(cpu).wf(),
        cycles == 2,
{
    cpu.a = addr_space.read(cpu.hl());
    let hl: u16 = cpu.hl();
    cpu.set_reg16(Register16::HL, hl.wrapping_add(1));
    2
}

/// Stores the accumulator to the byte at HL, then increments HL.
pub fn ld_hl_inc_a(cpu: &mut CPU, addr_space: &mut AddrSpace) -> (cycles: u8)
    ensures
        AddrSpace::write_rel(
            *old(addr_space),
            word(old(cpu).h, old(cpu).l),
            old(cpu).a,
            *final(addr_space),
        ),
        *final(cpu) == with_hl(*old(cpu), wrap_inc16(word(old(cpu).h, old(cpu).l))),
        old(cpu).wf() ==> final(cpu).wf(),
        cycles == 2,
{
    addr_space.write(cpu.hl(), cpu.a);
    let hl: u16 = cpu.hl();
    cpu.set_reg16(Register16::HL, hl.wrapping_add(1));
    2
}

// 16-bit load instructions.

/// Loads the immediate word into a 16-bit register.
pub fn ld_rr_nn(register: Register16, cpu: &mut CPU, addr_space: &AddrSpace) -> (cycles: u8)
    ensures
        *final(cpu) == fetched2(*old(cpu)).spec_set_reg16(register, imm16(*old(cpu), *addr_space)),
        old(cpu).wf() ==> final(cpu).wf(),
        cycles == 3,
{
    let lo: u8 = cpu.next_instr(addr_space);
    let hi: u8 = cpu.next_instr(addr_space);
    let nn: u16 = make_word(hi, lo);
    cpu.set_reg16(register, nn);
    3
}

/// Stores the stack pointer, low byte first, at the immediate absolute
/// address.
pub fn ld_nn_sp(cpu: &mut CPU, addr_space: &mut AddrSpace) -> (cycles: u8)
    ensures
        exists|bm: AddrSpace|
            AddrSpace::write_rel(
                *old(addr_space),
                imm16(*old(cpu), *old(addr_space)),
                low8(old(cpu).sp),
                bm,
            ) && AddrSpace::write_rel(
                bm,
                wrap_inc16(imm16(*old(cpu), *old(addr_space))),
                high8(old(cpu).sp),
                *final(addr_space),
            ),
        *final(cpu) == fetched2(*old(cpu)),
        old(cpu).wf() ==> final(cpu).wf(),
        cycles == 5,
{
    let lo: u8 = cpu.next_instr(addr_space);
    let hi: u8 = cpu.next_instr(addr_space);
    let nn: u16 = make_word(hi, lo);
    let sp_lo: u8 = lo_byte(cpu.sp);
    let sp_hi: u8 = hi_byte(cpu.sp);
    addr_space.write(nn, sp_lo);
    let ghost bm: AddrSpace = *addr_space;
    addr_space.write(nn.wrapping_add(1), sp_hi);
    proof {
        assert(AddrSpace::write_rel(
            *old(addr_space),
            imm16(*old(cpu), *old(addr_space)),
            low8(old(cpu).sp),
            bm,
        ));
    }
    5
}

/// Copies HL into the stack pointer.
pub fn ld_sp_hl(cpu: &mut CPU) -> (cycles: u8)
    ensures
        *final(cpu) == (CPU { sp: word(old(cpu).h, old(cpu).l), ..*old(cpu) }),
        old(cpu).wf() ==> final(cpu).wf(),
        cycles == 2,
{
    cpu.sp = cpu.hl();
    2
}

/// Pushes a register pair onto the descending stack, first half at
/// sp-1, second at sp-2.
pub fn push_rr(reg1: Register, reg2: Register, cpu: &mut CPU, addr_space: &mut AddrSpace) -> (cycles:
    u8)
    ensures
        exists|bm: AddrSpace|
            AddrSpace::write_rel(
                *old(addr_space),
                wrap_dec16(old(cpu).sp),
                old(cpu).spec_reg(reg1),
                bm,
            ) && AddrSpace::write_rel(
                bm,
                wrap_dec16_2(old(cpu).sp),
                old(cpu).spec_reg(reg2),
                *final(addr_space),
            ),
        *final(cpu) == (CPU { sp: wrap_dec16_2(old(cpu).sp), ..*old(cpu) }),
        old(cpu).wf() ==> final(cpu).wf(),
        cycles == 4,
{
    let v1: u8 = cpu.get_reg(reg1);
    let v2: u8 = cpu.get_reg(reg2);
    addr_space.write(cpu.sp.wrapping_sub(1), v1);
    let ghost bm: AddrSpace = *addr_space;
    addr_space.write(cpu.sp.wrapping_sub(2), v2);
    cpu.sp = cpu.sp.wrapping_sub(2);
    proof {
        assert(AddrSpace::write_rel(
            *old(addr_space),
            wrap_dec16(old(cpu).sp),
            old(cpu).spec_reg(reg1),
            bm,
        ));
    }
    4
}

/// Pops a register pair from the stack, second half first.
pub fn pop_rr(reg1: Register, reg2: Register, cpu: &mut CPU, addr_space: &AddrSpace) -> (cycles: u8)
    ensures
        *final(cpu) == (CPU {
            sp: wrap_inc16_2(old(cpu).sp),
            ..old(cpu).spec_set_reg(reg2, addr_space.mem(old(cpu).sp)).spec_set_reg(
                reg1,
                addr_space.mem(wrap_inc16(old(cpu).sp)),
            )
        }),
        old(cpu).wf() ==> final(cpu).wf(),
        cycles == 3,
{
    let lo: u8 = addr_space.read(cpu.sp);
    cpu.set_reg(reg2, lo);
    let hi: u8 = addr_space.read(cpu.sp.wrapping_add(1));
    cpu.set_reg(reg1, hi);
    cpu.sp = cpu.sp.wrapping_add(2);
    3
}

// 8-bit arithmetic instructions.  Results are reduced modulo 256; the
// zero flag follows the result, the half-carry flag follows low-nibble
// arithmetic, the carry flag follows unsigned overflow.

pub open spec fn spec_add_a(c: CPU, n: u8) -> CPU {
    let r = ((c.a + n) % 256) as u8;
    CPU {
        a: r,
        f: flags_byte(r == 0, false, (c.a & 0x0F) + (n & 0x0F) > 0x0F, c.a + n > 0xFF),
        ..c
    }
}

/// Adds `n` to the accumulator.
pub fn add_a_n(n: u8, cpu: &mut CPU) -> (cycles: u8)
    ensures
        *final(cpu) == spec_add_a(*old(cpu), n),
        final(cpu).wf(),
        cycles == 1,
{
    let result: u8 = cpu.a.wrapping_add(n);
    let overflow: bool = (cpu.a as u16) + (n as u16) > 0xFF;
    let half_carry: bool = ((cpu.a & 0x0F) as u16) + ((n & 0x0F) as u16) > 0x0F;
    cpu.set_flags(result == 0, false, half_carry, overflow);
    cpu.a = result;
    1
}

/// Adds the byte at HL to the accumulator.
pub fn add_a_hl(cpu: &mut CPU, addr_space: &AddrSpace) -> (cycles: u8)
    ensures
        *final(cpu) == spec_add_a(*old(cpu), addr_space.mem(word(old(cpu).h, old(cpu).l))),
        final(cpu).wf(),
        cycles == 2,
{
    let v: u8 = addr_space.read(cpu.hl());
    add_a_n(v, cpu);
    2
}

/// Adds the immediate byte to the accumulator.
pub fn add_a_imm(cpu: &mut CPU, addr_space: &AddrSpace) -> (cycles: u8)
    ensures
        *final(cpu) == spec_add_a(fetched(*old(cpu)), addr_space.mem(old(cpu).pc)),
        final(cpu).wf(),
        cycles == 2,
{
    let n: u8 = cpu.next_instr(addr_space);
    add_a_n(n, cpu);
    2
}

pub open spec fn carry_bit_of(c: CPU) -> u8 {
    if carry_of(c.f) {
        1u8
    } else {
        0u8
    }
}

pub open spec fn spec_adc_a(c: CPU, n: u8) -> CPU {
    let cb = carry_bit_of(c);
    let r = ((c.a + n + cb) % 256) as u8;
    CPU {
        a: r,
        f: flags_byte(r == 0, false, (c.a & 0x0F) + (n & 0x0F) + cb > 0x0F, c.a + n + cb > 0xFF),
        ..c
    }
}

/// Adds `n` and the carry flag to the accumulator.
pub fn adc_a_n(n: u8, cpu: &mut CPU) -> (cycles: u8)
    ensures
        *final(cpu) == spec_adc_a(*old(cpu), n),
        final(cpu).wf(),
        cycles == 1,
{
    let carry_bit: u16 = if cpu.carry_flag() {
        1
    } else {
        0
    };
    let result: u16 = (n as u16) + (cpu.a as u16) + carry_bit;
    let result8: u8 = (result % 256) as u8;
    let half_carry: bool = ((cpu.a & 0x0F) as u16) + ((n & 0x0F) as u16) + carry_bit > 0x0F;
    cpu.set_flags(result8 == 0, false, half_carry, result > 0xFF);
    cpu.a = result8;
    1
}

/// Adds the byte at HL and the carry flag to the accumulator.
pub fn adc_a_hl(cpu: &mut CPU, addr_space: &AddrSpace) -> (cycles: u8)
    ensures
        *final(cpu) == spec_adc_a(*old(cpu), addr_space.mem(word(old(cpu).h, old(cpu).l))),
        final(cpu).wf(),
        cycles == 2,
{
    let v: u8 = addr_space.read(cpu.hl());
    adc_a_n(v, cpu);
    2
}

/// Adds the immediate byte and the carry flag to the accumulator.
pub fn adc_a_imm(cpu: &mut CPU, addr_space: &AddrSpace) -> (cycles: u8)
    ensures
        *final(cpu) == spec_adc_a(fetched(*old(cpu)), addr_space.mem(old(cpu).pc)),
        final(cpu).wf(),
        cycles == 2,
{
    let n: u8 = cpu.next_instr(addr_space);
    adc_a_n(n, cpu);
    2
}

pub open spec fn spec_sub_a(c: CPU, n: u8) -> CPU {
    let r = (((c.a - n) + 256) % 256) as u8;
    CPU { a: r, f: flags_byte(r == 0, true, (n & 0x0F) > (c.a & 0x0F), n > c.a), ..c }
}

/// Subtracts `n` from the accumulator; the nibble comparison for the
/// half-carry flag happens before the subtraction.
pub fn sub_a_n(n: u8, cpu: &mut CPU) -> (cycles: u8)
    ensures
        *final(cpu) == spec_sub_a(*old(cpu), n),
        final(cpu).wf(),
        cycles == 1,
{
    let result: u8 = cpu.a.wrapping_sub(n);
    let overflow: bool = n > cpu.a;
    let half_carry: bool = (n & 0x0F) > (cpu.a & 0x0F);
    cpu.set_flags(result == 0, true, half_carry, overflow);
    cpu.a = result;
    1
}

/// Subtracts the byte at HL from the accumulator.
pub fn sub_a_hl(cpu: &mut CPU, addr_space: &AddrSpace) -> (cycles: u8)
    ensures
        *final(cpu) == spec_sub_a(*old(cpu), addr_space.mem(word(old(cpu).h, old(cpu).l))),
        final(cpu).wf(),
        cycles == 2,
{
    let v: u8 = addr_space.read(cpu.hl());
    sub_a_n(v, cpu);
    2
}

/// Subtracts the immediate byte from the accumulator.
pub fn sub_a_imm(cpu: &mut CPU, addr_space: &AddrSpace) -> (cycles: u8)
    ensures
        *final(cpu) == spec_sub_a(fetched(*old(cpu)), addr_space.mem(old(cpu).pc)),
        final(cpu).wf(),
        cycles == 2,
{
    let n: u8 = cpu.next_instr(addr_space);
    sub_a_n(n, cpu);
    2
}

pub open spec fn spec_sbc_a(c: CPU, n: u8) -> CPU {
    let cb = carry_bit_of(c);
    let r = (((c.a - n - cb) + 512) % 256) as u8;
    CPU {
        a: r,
        f: flags_byte(
            r == 0,
            true,
            (c.a & 0x0F) - (n & 0x0F) - cb < 0,
            c.a - n - cb < 0,
        ),
        ..c
    }
}

/// Subtracts `n` and the carry flag from the accumulator.
pub fn sbc_a_n(n: u8, cpu: &mut CPU) -> (cycles: u8)
    ensures
        *final(cpu) == spec_sbc_a(*old(cpu), n),
        final(cpu).wf(),
        cycles == 1,
{
    let carry_bit: u8 = if cpu.carry_flag() {
        1
    } else {
        0
    };
    let result: u8 = cpu.a.wrapping_sub(n).wrapping_sub(carry_bit);
    let borrow: bool = (cpu.a as u16) < (n as u16) + (carry_bit as u16);
    let half_borrow: bool = ((cpu.a & 0x0F) as u16) < ((n & 0x0F) as u16) + (carry_bit as u16);
    cpu.set_flags(result == 0, true, half_borrow, borrow);
    cpu.a = result;
    1
}

/// Subtracts the byte at HL and the carry flag from the accumulator.
pub fn sbc_a_hl(cpu: &mut CPU, addr_space: &AddrSpace) -> (cycles: u8)
    ensures
        *final(cpu) == spec_sbc_a(*old(cpu), addr_space.mem(word(old(cpu).h, old(cpu).l))),
        final(cpu).wf(),
        cycles == 2,
{
    let v: u8 = addr_space.read(cpu.hl());
    sbc_a_n(v, cpu);
    2
}

/// Subtracts the immediate byte and the carry flag from the accumulator.
pub fn sbc_a_imm(cpu: &mut CPU, addr_space: &AddrSpace) -> (cycles: u8)
    ensures
        *final(cpu) == spec_sbc_a(fetched(*old(cpu)), addr_space.mem(old(cpu).pc)),
        final(cpu).wf(),
        cycles == 2,
{
    let n: u8 = cpu.next_instr(addr_space);
    sbc_a_n(n, cpu);
    2
}

// Bitwise accumulator instructions: AND sets the half-carry flag, OR and
// XOR clear every flag but zero.

pub open spec fn spec_and_a(c: CPU, n: u8) -> CPU {
    let r = c.a & n;
    CPU { a: r, f: flags_byte(r == 0, false, true, false), ..c }
}

/// Bitwise AND of the accumulator with `n`.
pub fn and_a_n(n: u8, cpu: &mut CPU) -> (cycles: u8)
    ensures
        *final(cpu) == spec_and_a(*old(cpu), n),
        final(cpu).wf(),
        cycles == 1,
{
    cpu.a = cpu.a & n;
    let z: bool = cpu.a == 0;
    cpu.set_flags(z, false, true, false);
    1
}

pub fn and_a_hl(cpu: &mut CPU, addr_space: &AddrSpace) -> (cycles: u8)
    ensures
        *final(cpu) == spec_and_a(*old(cpu), addr_space.mem(word(old(cpu).h, old(cpu).l))),
        final(cpu).wf(),
        cycles == 2,
{
    let v: u8 = addr_space.read(cpu.hl());
    and_a_n(v, cpu);
    2
}

pub fn and_a_imm(cpu: &mut CPU, addr_space: &AddrSpace) -> (cycles: u8)
    ensures
        *final(cpu) == spec_and_a(fetched(*old(cpu)), addr_space.mem(old(cpu).pc)),
        final(cpu).wf(),
        cycles == 2,
{
    let n: u8 = cpu.next_instr(addr_space);
    and_a_n(n, cpu);
    2
}

pub open spec fn spec_or_a(c: CPU, n: u8) -> CPU {
    let r = c.a | n;
    CPU { a: r, f: flags_byte(r == 0, false, false, false), ..c }
}

/// Bitwise OR of the accumulator with `n`.
pub fn or_a_n(n: u8, cpu: &mut CPU) -> (cycles: u8)
    ensures
        *final(cpu) == spec_or_a(*old(cpu), n),
        final(cpu).wf(),
        cycles == 1,
{
    cpu.a = cpu.a | n;
    let z: bool = cpu.a == 0;
    cpu.set_flags(z, false, false, false);
    1
}

pub fn or_a_hl(cpu: &mut CPU, addr_space: &AddrSpace) -> (cycles: u8)
    ensures
        *final(cpu) == spec_or_a(*old(cpu), addr_space.mem(word(old(cpu).h, old(cpu).l))),
        final(cpu).wf(),
        cycles == 2,
{
    let v: u8 = addr_space.read(cpu.hl());
    or_a_n(v, cpu);
    2
}

pub fn or_a_imm(cpu: &mut CPU, addr_space: &AddrSpace) -> (cycles: u8)
    ensures
        *final(cpu) == spec_or_a(fetched(*old(cpu)), addr_space.mem(old(cpu).pc)),
        final(cpu).wf(),
        cycles == 2,
{
    let n: u8 = cpu.next_instr(addr_space);
    or_a_n(n, cpu);
    2
}

pub open spec fn spec_xor_a(c: CPU, n: u8) -> CPU {
    let r = c.a ^ n;
    CPU { a: r, f: flags_byte(r == 0, false, false, false), ..c }
}

/// Bitwise XOR of the accumulator with `n`.
pub fn xor_a_n(n: u8, cpu: &mut CPU) -> (cycles: u8)
    ensures
        *final(cpu) == spec_xor_a(*old(cpu), n),
        final(cpu).wf(),
        cycles == 1,
{
    cpu.a = cpu.a ^ n;
    let z: bool = cpu.a == 0;
    cpu.set_flags(z, false, false, false);
    1
}

pub fn xor_a_hl(cpu: &mut CPU, addr_space: &AddrSpace) -> (cycles: u8)
    ensures
        *final(cpu) == spec_xor_a(*old(cpu), addr_space.mem(word(old(cpu).h, old(cpu).l))),
        final(cpu).wf(),
        cycles == 2,
{
    let v: u8 = addr_space.read(cpu.hl());
    xor_a_n(v, cpu);
    2
}

pub fn xor_a_imm(cpu: &mut CPU, addr_space: &AddrSpace) -> (cycles: u8)
    ensures
        *final(cpu) == spec_xor_a(fetched(*old(cpu)), addr_space.mem(old(cpu).pc)),
        final(cpu).wf(),
        cycles == 2,
{
    let n: u8 = cpu.next_instr(addr_space);
    xor_a_n(n, cpu);
    2
}

pub open spec fn spec_cp_a(c: CPU, n: u8) -> CPU {
    CPU { f: flags_byte(c.a == n, true, (c.a & 0x0F) < (n & 0x0F), n > c.a), ..c }
}

/// Compares the accumulator with `n` by setting the subtraction flags,
/// leaving the accumulator itself untouched.
pub fn cp_a_n(n: u8, cpu: &mut CPU) -> (cycles: u8)
    ensures
        *final(cpu) == spec_cp_a(*old(cpu), n),
        final(cpu).wf(),
        cycles == 1,
{
    let half_carry: bool = (cpu.a & 0x0F) < (n & 0x0F);
    let z: bool = cpu.a == n;
    cpu.set_flags(z, true, half_carry, n > cpu.a);
    1
}

pub fn cp_a_hl(cpu: &mut CPU, addr_space: &AddrSpace) -> (cycles: u8)
    ensures
        *final(cpu) == spec_cp_a(*old(cpu), addr_space.mem(word(old(cpu).h, old(cpu).l))),
        final(cpu).wf(),
        cycles == 2,
{
    let v: u8 = addr_space.read(cpu.hl());
    cp_a_n(v, cpu);
    2
}

pub fn cp_a_imm(cpu: &mut CPU, addr_space: &AddrSpace) -> (cycles: u8)
    ensures
        *final(cpu) == spec_cp_a(fetched(*old(cpu)), addr_space.mem(old(cpu).pc)),
        final(cpu).wf(),
        cycles == 2,
{
    let n: u8 = cpu.next_instr(addr_space);
    cp_a_n(n, cpu);
    2
}

// 8-bit increment and decrement: wrapping by one, carry untouched, the
// half-carry flag recomputed from the result's low nibble.

/// The flag byte after an 8-bit increment producing `r`, with the old
/// carry kept.
pub open spec fn inc_flags(c: CPU, r: u8) -> u8 {
    flags_byte(r == 0, false, r & 0x0F == 0, carry_of(c.f))
}

/// Increments a byte, updating the flags; the carry flag is kept.
pub fn inc_n(n: u8, cpu: &mut CPU) -> (result: u8)
    ensures
        result == ((n + 1) % 256) as u8,
        *final(cpu) == (CPU { f: inc_flags(*old(cpu), ((n + 1) % 256) as u8), ..*old(cpu) }),
        final(cpu).wf(),
{
    let result: u8 = n.wrapping_add(1);
    let carry: bool = cpu.carry_flag();
    let z: bool = result == 0;
    cpu.set_flags(z, false, result & 0x0F == 0, carry);
    result
}

pub open spec fn spec_inc_r(c: CPU, r: Register) -> CPU {
    let v = ((c.spec_reg(r) + 1) % 256) as u8;
    (CPU { f: inc_flags(c, v), ..c }).spec_set_reg(r, v)
}

/// Increments an 8-bit register.
pub fn inc_r(register: Register, cpu: &mut CPU) -> (cycles: u8)
    ensures
        *final(cpu) == spec_inc_r(*old(cpu), register),
        old(cpu).wf() ==> final(cpu).wf(),
        cycles == 1,
{
    let v: u8 = cpu.get_reg(register);
    let result: u8 = inc_n(v, cpu);
    cpu.set_reg(register, result);
    1
}

/// Increments the byte at HL.
pub fn inc_hl(cpu: &mut CPU, addr_space: &mut AddrSpace) -> (cycles: u8)
    ensures
        AddrSpace::write_rel(
            *old(addr_space),
            word(old(cpu).h, old(cpu).l),
            ((old(addr_space).mem(word(old(cpu).h, old(cpu).l)) + 1) % 256) as u8,
            *final(addr_space),
        ),
        *final(cpu) == (CPU {
            f: inc_flags(
                *old(cpu),
                ((old(addr_space).mem(word(old(cpu).h, old(cpu).l)) + 1) % 256) as u8,
            ),
            ..*old(cpu)
        }),
        final(cpu).wf(),
        cycles == 3,
{
    let v: u8 = addr_space.read(cpu.hl());
    let result: u8 = inc_n(v, cpu);
    addr_space.write(cpu.hl(), result);
    3
}

/// The flag byte after an 8-bit decrement producing `r`, with the old
/// carry kept.
pub open spec fn dec_flags(c: CPU, r: u8) -> u8 {
    flags_byte(r == 0, true, r & 0x0F == 0x0F, carry_of(c.f))
}

/// Decrements a byte, updating the flags; the carry flag is kept.
pub fn dec_n(n: u8, cpu: &mut CPU) -> (result: u8)
    ensures
        result == (((n - 1) + 256) % 256) as u8,
        *final(cpu) == (CPU { f: dec_flags(*old(cpu), (((n - 1) + 256) % 256) as u8), ..*old(cpu) }),
        final(cpu).wf(),
{
    let result: u8 = n.wrapping_sub(1);
    let carry: bool = cpu.carry_flag();
    let z: bool = result == 0;
    cpu.set_flags(z, true, result & 0x0F == 0x0F, carry);
    result
}

pub open spec fn spec_dec_r(c: CPU, r: Register) -> CPU {
    let v = (((c.spec_reg(r) - 1) + 256) % 256) as u8;
    (CPU { f: dec_flags(c, v), ..c }).spec_set_reg(r, v)
}

/// Decrements an 8-bit register.
pub fn dec_r(register: Register, cpu: &mut CPU) -> (cycles: u8)
    ensures
        *final(cpu) == spec_dec_r(*old(cpu), register),
        old(cpu).wf() ==> final(cpu).wf(),
        cycles == 1,
{
    let v: u8 = cpu.get_reg(register);
    let result: u8 = dec_n(v, cpu);
    cpu.set_reg(register, result);
    1
}

/// Decrements the byte at HL.
pub fn dec_hl(cpu: &mut CPU, addr_space: &mut AddrSpace) -> (cycles: u8)
    ensures
        AddrSpace::write_rel(
            *old(addr_space),
            word(old(cpu).h, old(cpu).l),
            (((old(addr_space).mem(word(old(cpu).h, old(cpu).l)) - 1) + 256) % 256) as u8,
            *final(addr_space),
        ),
        *final(cpu) == (CPU {
            f: dec_flags(
                *old(cpu),
                (((old(addr_space).mem(word(old(cpu).h, old(cpu).l)) - 1) + 256) % 256) as u8,
            ),
            ..*old(cpu)
        }),
        final(cpu).wf(),
        cycles == 3,
{
    let v: u8 = addr_space.read(cpu.hl());
    let result: u8 = dec_n(v, cpu);
    addr_space.write(cpu.hl(), result);
    3
}

// 16-bit arithmetic instructions.

pub open spec fn spec_add_hl(c: CPU, nn: u16) -> CPU {
    let hl = word(c.h, c.l);
    let r = ((hl + nn) % 0x10000) as u16;
    with_hl(
        CPU {
            f: flags_byte(
                zero_of(c.f),
                false,
                (hl & 0x0FFF) + (nn & 0x0FFF) > 0x0FFF,
                hl + nn > 0xFFFF,
            ),
            ..c
        },
        r,
    )
}

/// Adds a 16-bit value into HL: wrapping add, half-carry out of bit 11,
/// carry out of bit 15, zero preserved, subtract cleared.
pub fn add_hl_nn(nn: u16, cpu: &mut CPU) -> (cycles: u8)
    ensures
        *final(cpu) == spec_add_hl(*old(cpu), nn),
        old(cpu).wf() ==> final(cpu).wf(),
        cycles == 2,
{
    let hl: u16 = cpu.hl();
    let result: u16 = hl.wrapping_add(nn);
    let overflow: bool = (hl as u32) + (nn as u32) > 0xFFFF;
    let half_carry: bool = ((hl & 0x0FFF) as u32) + ((nn & 0x0FFF) as u32) > 0x0FFF;
    let z: bool = cpu.zero_flag();
    cpu.set_flags(z, false, half_carry, overflow);
    cpu.set_reg16(Register16::HL, result);
    2
}

/// The wrapped 16-bit sum of a word and a signed byte.
pub open spec fn wrap_add_signed16(v: u16, e: i8) -> u16 {
    (((v + e) + 0x10000) % 0x10000) as u16
}

pub open spec fn spec_add_sp(c: CPU, e: i8) -> CPU {
    let r = wrap_add_signed16(c.sp, e);
    CPU {
        sp: r,
        f: flags_byte(
            false,
            false,
            (c.sp ^ sext16(e) ^ r) & 0x10 == 0x10,
            (c.sp ^ sext16(e) ^ r) & 0x100 == 0x100,
        ),
        ..c
    }
}

/// Adds a signed byte to the stack pointer; half-carry and carry come
/// from the XOR of operands and result at bits 4 and 8, zero and
/// subtract are cleared.
pub fn add_sp_n(n: i8, cpu: &mut CPU)
    ensures
        *final(cpu) == spec_add_sp(*old(cpu), n),
        final(cpu).wf(),
{
    let eu: u16 = signed16(n);
    let result: u16 = cpu.sp.wrapping_add_signed(n as i16);
    let half: bool = (cpu.sp ^ eu ^ result) & 0x10 == 0x10;
    let carry: bool = (cpu.sp ^ eu ^ result) & 0x100 == 0x100;
    cpu.set_flags(false, false, half, carry);
    cpu.set_reg16(Register16::SP, result);
}

/// Adds the signed immediate byte to the stack pointer.
pub fn add_sp_imm(cpu: &mut CPU, addr_space: &AddrSpace) -> (cycles: u8)
    ensures
        *final(cpu) == spec_add_sp(fetched(*old(cpu)), as_signed8(addr_space.mem(old(cpu).pc))),
        final(cpu).wf(),
        cycles == 4,
{
    let b: u8 = cpu.next_instr(addr_space);
    let n: i8 = to_signed8(b);
    add_sp_n(n, cpu);
    4
}

pub open spec fn spec_ldhl_sp(c: CPU, e: i8) -> CPU {
    let r = wrap_add_signed16(c.sp, e);
    with_hl(
        CPU {
            f: flags_byte(
                false,
                false,
                (c.sp ^ sext16(e) ^ r) & 0x10 == 0x10,
                (c.sp ^ sext16(e) ^ r) & 0x100 == 0x100,
            ),
            ..c
        },
        r,
    )
}

/// Loads SP plus the signed immediate byte into HL, with the same flag
/// rules as the signed stack addition.
pub fn ldhl_sp_n(cpu: &mut CPU, addr_space: &mut AddrSpace) -> (cycles: u8)
    ensures
        *final(cpu) == spec_ldhl_sp(fetched(*old(cpu)), as_signed8(old(addr_space).mem(old(cpu).pc))),
        *final(addr_space) == *old(addr_space),
        final(cpu).wf(),
        cycles == 3,
{
    let b: u8 = cpu.next_instr(addr_space);
    let n: i8 = to_signed8(b);
    let eu: u16 = signed16(n);
    let result: u16 = cpu.sp.wrapping_add_signed(n as i16);
    let half: bool = (cpu.sp ^ eu ^ result) & 0x10 == 0x10;
    let carry: bool = (cpu.sp ^ eu ^ result) & 0x100 == 0x100;
    cpu.set_flags(false, false, half, carry);
    cpu.set_reg16(Register16::HL, result);
    3
}

pub open spec fn spec_inc_rr(c: CPU, r: Register16) -> CPU {
    c.spec_set_reg16(r, wrap_inc16(c.spec_reg16(r)))
}

/// Increments a 16-bit register with wraparound; no flag effect.
pub fn inc_rr(register: Register16, cpu: &mut CPU) -> (cycles: u8)
    ensures
        *final(cpu) == spec_inc_rr(*old(cpu), register),
        old(cpu).wf() ==> final(cpu).wf(),
        cycles == 2,
{
    let value: u16 = cpu.get_reg16(register).wrapping_add(1);
    cpu.set_reg16(register, value);
    2
}

pub open spec fn spec_dec_rr(c: CPU, r: Register16) -> CPU {
    c.spec_set_reg16(r, wrap_dec16(c.spec_reg16(r)))
}

/// Decrements a 16-bit register with wraparound; no flag effect.
pub fn dec_rr(register: Register16, cpu: &mut CPU) -> (cycles: u8)
    ensures
        *final(cpu) == spec_dec_rr(*old(cpu), register),
        old(cpu).wf() ==> final(cpu).wf(),
        cycles == 2,
{
    let value: u16 = cpu.get_reg16(register).wrapping_sub(1);
    cpu.set_reg16(register, value);
    2
}

// Miscellaneous.

pub open spec fn swap_val(v: u8) -> u8 {
    ((0x0F & v) << 4) | ((0xF0 & v) >> 4)
}

pub open spec fn swap_cpu(c: CPU, v: u8) -> CPU {
    CPU { f: flags_byte(swap_val(v) == 0, false, false, false), ..c }
}

/// Exchanges the two nibbles of a byte; only the zero flag can end up
/// set.
pub fn swap(value: u8, cpu: &mut CPU) -> (result: u8)
    ensures
        result == swap_val(value),
        *final(cpu) == swap_cpu(*old(cpu), value),
        final(cpu).wf(),
{
    let result: u8 = ((0x0F & value) << 4) | ((0xF0 & value) >> 4);
    let z: bool = result == 0;
    cpu.set_flags(z, false, false, false);
    result
}

pub open spec fn spec_swap_r(c: CPU, r: Register) -> CPU {
    swap_cpu(c, c.spec_reg(r)).spec_set_reg(r, swap_val(c.spec_reg(r)))
}

pub fn swap_r(register: Register, cpu: &mut CPU) -> (cycles: u8)
    ensures
        *final(cpu) == spec_swap_r(*old(cpu), register),
        final(cpu).wf(),
        cycles == 2,
{
    let v: u8 = cpu.get_reg(register);
    let result: u8 = swap(v, cpu);
    cpu.set_reg(register, result);
    2
}

pub fn swap_hl(cpu: &mut CPU, addr_space: &mut AddrSpace) -> (cycles: u8)
    ensures
        AddrSpace::write_rel(
            *old(addr_space),
            word(old(cpu).h, old(cpu).l),
            swap_val(old(addr_space).mem(word(old(cpu).h, old(cpu).l))),
            *final(addr_space),
        ),
        *final(cpu) == swap_cpu(*old(cpu), old(addr_space).mem(word(old(cpu).h, old(cpu).l))),
        final(cpu).wf(),
        cycles == 4,
{
    let v: u8 = addr_space.read(cpu.hl());
    let result: u8 = swap(v, cpu);
    addr_space.write(cpu.hl(), result);
    4
}

// The decimal-adjust rules: an 0x06 adjustment when the half-carry flag
// is set or the low nibble exceeds 9 outside subtraction, an 0x60
// adjustment when the carry flag is set or the whole byte exceeds 0x99
// outside subtraction; only the latter sets the carry out.

pub open spec fn daa_low_adjust(c: CPU) -> bool {
    half_of(c.f) || (!sub_of(c.f) && (0xF & c.a) > 9)
}

pub open spec fn daa_high_adjust(c: CPU) -> bool {
    carry_of(c.f) || (!sub_of(c.f) && c.a > 0x99)
}

pub open spec fn daa_addend(c: CPU) -> u8 {
    (if daa_low_adjust(c) {
        0x06u8
    } else {
        0u8
    }) | (if daa_high_adjust(c) {
        0x60u8
    } else {
        0u8
    })
}

pub open spec fn spec_daa(c: CPU) -> CPU {
    let a1 = if sub_of(c.f) {
        (((c.a - daa_addend(c)) + 256) % 256) as u8
    } else {
        ((c.a + daa_addend(c)) % 256) as u8
    };
    CPU { a: a1, f: flags_byte(a1 == 0, sub_of(c.f), false, daa_high_adjust(c)), ..c }
}

/// Decimal-adjusts the accumulator after a BCD addition or subtraction.
pub fn daa(cpu: &mut CPU) -> (cycles: u8)
    ensures
        *final(cpu) == spec_daa(*old(cpu)),
        final(cpu).wf(),
        cycles == 1,
{
    let low_adjust: bool = cpu.half_carry_flag() || (!cpu.sub_flag() && (0xF & cpu.a) > 9);
    let high_adjust: bool = cpu.carry_flag() || (!cpu.sub_flag() && cpu.a > 0x99);
    let low_part: u8 = if low_adjust {
        0x06
    } else {
        0
    };
    let high_part: u8 = if high_adjust {
        0x60
    } else {
        0
    };
    let add_amount: u8 = low_part | high_part;
    let sub: bool = cpu.sub_flag();
    if sub {
        cpu.a = cpu.a.wrapping_sub(add_amount);
    } else {
        cpu.a = cpu.a.wrapping_add(add_amount);
    }
    let z: bool = cpu.a == 0;
    cpu.set_flags(z, sub, false, high_adjust);
    1
}

pub open spec fn spec_cpl(c: CPU) -> CPU {
    CPU { a: !c.a, f: flags_byte(zero_of(c.f), true, true, carry_of(c.f)), ..c }
}

/// Complements the accumulator, setting subtract and half-carry.
pub fn cpl(cpu: &mut CPU) -> (cycles: u8)
    ensures
        *final(cpu) == spec_cpl(*old(cpu)),
        final(cpu).wf(),
        cycles == 1,
{
    cpu.a = !cpu.a;
    let z: bool = cpu.zero_flag();
    let carry: bool = cpu.carry_flag();
    cpu.set_flags(z, true, true, carry);
    1
}

pub open spec fn spec_scf(c: CPU) -> CPU {
    CPU { f: flags_byte(zero_of(c.f), false, false, true), ..c }
}

/// Sets the carry flag; zero is preserved, subtract and half-carry are
/// cleared.
pub fn scf(cpu: &mut CPU) -> (cycles: u8)
    ensures
        *final(cpu) == spec_scf(*old(cpu)),
        final(cpu).wf(),
        cycles == 1,
{
    let z: bool = cpu.zero_flag();
    cpu.set_flags(z, false, false, true);
    1
}

pub open spec fn spec_ccf(c: CPU) -> CPU {
    CPU { f: flags_byte(zero_of(c.f), false, false, !carry_of(c.f)), ..c }
}

/// Complements the carry flag; zero is preserved, subtract and
/// half-carry are cleared.
pub fn ccf(cpu: &mut CPU) -> (cycles: u8)
    ensures
        *final(cpu) == spec_ccf(*old(cpu)),
        final(cpu).wf(),
        cycles == 1,
{
    let z: bool = cpu.zero_flag();
    let carry: bool = cpu.carry_flag();
    cpu.set_flags(z, false, false, !carry);
    1
}

/// Disables the interrupt master enable at once.
pub fn di(cpu: &mut CPU) -> (cycles: u8)
    ensures
        *final(cpu) == (CPU { ime: false, ..*old(cpu) }),
        old(cpu).wf() ==> final(cpu).wf(),
        cycles == 1,
{
    cpu.ime = false;
    1
}

/// Schedules the interrupt master enable for activation one step later.
pub fn ei(cpu: &mut CPU) -> (cycles: u8)
    ensures
        *final(cpu) == (CPU { schedule_ime: true, ..*old(cpu) }),
        old(cpu).wf() ==> final(cpu).wf(),
        cycles == 2,
{
    cpu.schedule_ime = true;
    2
}

/// Low-power stop is unmodeled: the opcode costs one cycle and has no
/// further effect.
pub fn stop() -> (cycles: u8)
    ensures
        cycles == 1,
{
    1
}

/// Halt is unmodeled: the opcode costs one cycle and has no further
/// effect.
pub fn halt() -> (cycles: u8)
    ensures
        cycles == 1,
{
    1
}

// Control flow.  Absolute targets arrive little-endian; relative targets
// are signed bytes added to the advanced program counter; calls push the
// return address high byte first onto the descending stack.

/// Jumps to the immediate absolute address.
pub fn jp_nn(cpu: &mut CPU, addr_space: &AddrSpace) -> (cycles: u8)
    ensures
        *final(cpu) == (CPU { pc: imm16(*old(cpu), *addr_space), ..*old(cpu) }),
        old(cpu).wf() ==> final(cpu).wf(),
        cycles == 4,
{
    let lo: u8 = cpu.next_instr(addr_space);
    let hi: u8 = cpu.next_instr(addr_space);
    cpu.pc = make_word(hi, lo);
    4
}

/// Jumps by the signed immediate offset, measured from the program
/// counter after the offset byte.
pub fn jr_e(cpu: &mut CPU, addr_space: &AddrSpace) -> (cycles: u8)
    ensures
        *final(cpu) == (CPU {
            pc: wrap_add_signed16(wrap_inc16(old(cpu).pc), as_signed8(addr_space.mem(old(cpu).pc))),
            ..*old(cpu)
        }),
        old(cpu).wf() ==> final(cpu).wf(),
        cycles == 3,
{
    let e: u8 = cpu.next_instr(addr_space);
    let offset: i8 = to_signed8(e);
    cpu.pc = cpu.pc.wrapping_add_signed(offset as i16);
    3
}

/// Jumps to the address in HL.
pub fn jp_hl(cpu: &mut CPU) -> (cycles: u8)
    ensures
        *final(cpu) == (CPU { pc: word(old(cpu).h, old(cpu).l), ..*old(cpu) }),
        old(cpu).wf() ==> final(cpu).wf(),
        cycles == 1,
{
    cpu.pc = cpu.hl();
    1
}

/// Conditional relative jump: taken when `cc` holds, costing one cycle
/// more.
pub fn jr_cc_e(cc: bool, cpu: &mut CPU, addr_space: &AddrSpace) -> (cycles: u8)
    ensures
        cc ==> *final(cpu) == (CPU {
            pc: wrap_add_signed16(wrap_inc16(old(cpu).pc), as_signed8(addr_space.mem(old(cpu).pc))),
            ..*old(cpu)
        }),
        !cc ==> *final(cpu) == fetched(*old(cpu)),
        old(cpu).wf() ==> final(cpu).wf(),
        cycles == if cc {
            3u8
        } else {
            2u8
        },
{
    let e: u8 = cpu.next_instr(addr_space);
    let offset: i8 = to_signed8(e);
    if cc {
        cpu.pc = cpu.pc.wrapping_add_signed(offset as i16);
        3
    } else {
        2
    }
}

/// Conditional absolute jump: taken when `cc` holds, costing one cycle
/// more.
pub fn jp_cc_nn(cc: bool, cpu: &mut CPU, addr_space: &AddrSpace) -> (cycles: u8)
    ensures
        cc ==> *final(cpu) == (CPU { pc: imm16(*old(cpu), *addr_space), ..*old(cpu) }),
        !cc ==> *final(cpu) == fetched2(*old(cpu)),
        old(cpu).wf() ==> final(cpu).wf(),
        cycles == if cc {
            3u8
        } else {
            2u8
        },
{
    let n1: u8 = cpu.next_instr(addr_space);
    let n2: u8 = cpu.next_instr(addr_space);
    if cc {
        cpu.pc = make_word(n2, n1);
        3
    } else {
        2
    }
}

/// Conditional call: when taken, pushes the return address high byte at
/// sp-1 and low byte at sp-2, then jumps to the immediate address.
pub fn call_cc_nn(cc: bool, cpu: &mut CPU, addr_space: &mut AddrSpace) -> (cycles: u8)
    ensures
        cc ==> exists|bm: AddrSpace|
            AddrSpace::write_rel(
                *old(addr_space),
                wrap_dec16(old(cpu).sp),
                high8(fetched2(*old(cpu)).pc),
                bm,
            ) && AddrSpace::write_rel(
                bm,
                wrap_dec16_2(old(cpu).sp),
                low8(fetched2(*old(cpu)).pc),
                *final(addr_space),
            ),
        cc ==> *final(cpu) == (CPU {
            sp: wrap_dec16_2(old(cpu).sp),
            pc: imm16(*old(cpu), *old(addr_space)),
            ..*old(cpu)
        }),
        !cc ==> *final(cpu) == fetched2(*old(cpu)) && *final(addr_space) == *old(addr_space),
        old(cpu).wf() ==> final(cpu).wf(),
        cycles == if cc {
            6u8
        } else {
            3u8
        },
{
    let n1: u8 = cpu.next_instr(addr_space);
    let n2: u8 = cpu.next_instr(addr_space);
    if cc {
        cpu.sp = cpu.sp.wrapping_sub(1);
        let pc_hi: u8 = hi_byte(cpu.pc);
        addr_space.write(cpu.sp, pc_hi);
        let ghost bm: AddrSpace = *addr_space;
        cpu.sp = cpu.sp.wrapping_sub(1);
        let pc_lo: u8 = lo_byte(cpu.pc);
        addr_space.write(cpu.sp, pc_lo);
        cpu.pc = make_word(n2, n1);
        proof {
            assert(AddrSpace::write_rel(
                *old(addr_space),
                wrap_dec16(old(cpu).sp),
                high8(fetched2(*old(cpu)).pc),
                bm,
            ));
        }
        6
    } else {
        3
    }
}

/// Conditional return: when taken, pops the program counter low byte
/// first; the cycle cost does not depend on the condition.
pub fn ret_cc(cc: bool, cpu: &mut CPU, addr_space: &AddrSpace) -> (cycles: u8)
    ensures
        cc ==> *final(cpu) == (CPU {
            pc: word(addr_space.mem(wrap_inc16(old(cpu).sp)), addr_space.mem(old(cpu).sp)),
            sp: wrap_inc16_2(old(cpu).sp),
            ..*old(cpu)
        }),
        !cc ==> *final(cpu) == *old(cpu),
        old(cpu).wf() ==> final(cpu).wf(),
        cycles == 2,
{
    if cc {
        let lsb: u8 = addr_space.read(cpu.sp);
        let msb: u8 = addr_space.read(cpu.sp.wrapping_add(1));
        cpu.sp = cpu.sp.wrapping_add(2);
        cpu.pc = make_word(msb, lsb);
    }
    2
}

/// Returns and schedules the interrupt master enable for reactivation.
pub fn reti(cpu: &mut CPU, addr_space: &AddrSpace) -> (cycles: u8)
    ensures
        *final(cpu) == (CPU {
            pc: word(addr_space.mem(wrap_inc16(old(cpu).sp)), addr_space.mem(old(cpu).sp)),
            sp: wrap_inc16_2(old(cpu).sp),
            schedule_ime: true,
            ..*old(cpu)
        }),
        old(cpu).wf() ==> final(cpu).wf(),
        cycles == 2,
{
    ret_cc(true, cpu, addr_space);
    cpu.schedule_ime = true;
    2
}

/// Calls one of the fixed restart vectors: pushes the return address and
/// jumps to `n`.
pub fn rst_n(n: u16, cpu: &mut CPU, addr_space: &mut AddrSpace) -> (cycles: u8)
    ensures
        exists|bm: AddrSpace|
            AddrSpace::write_rel(
                *old(addr_space),
                wrap_dec16(old(cpu).sp),
                high8(old(cpu).pc),
                bm,
            ) && AddrSpace::write_rel(
                bm,
                wrap_dec16_2(old(cpu).sp),
                low8(old(cpu).pc),
                *final(addr_space),
            ),
        *final(cpu) == (CPU { sp: wrap_dec16_2(old(cpu).sp), pc: n, ..*old(cpu) }),
        old(cpu).wf() ==> final(cpu).wf(),
        cycles == 8,
{
    cpu.sp = cpu.sp.wrapping_sub(1);
    let pc_hi: u8 = hi_byte(cpu.pc);
    addr_space.write(cpu.sp, pc_hi);
    let ghost bm: AddrSpace = *addr_space;
    cpu.sp = cpu.sp.wrapping_sub(1);
    let pc_lo: u8 = lo_byte(cpu.pc);
    addr_space.write(cpu.sp, pc_lo);
    cpu.pc = n;
    proof {
        assert(AddrSpace::write_rel(
            *old(addr_space),
            wrap_dec16(old(cpu).sp),
            high8(old(cpu).pc),
            bm,
        ));
    }
    8
}

// Single-bit instructions: BIT tests a bit into the zero flag, SET and
// RES force a bit with no flag effect.

pub open spec fn spec_set_b_r(c: CPU, b: u32, r: Register) -> CPU {
    c.spec_set_reg(r, c.spec_reg(r) | (1u8 << b))
}

/// Sets bit `b` of a register.
pub fn set_b_r(b: u32, register: Register, cpu: &mut CPU) -> (cycles: u8)
    requires
        b < 8,
    ensures
        *final(cpu) == spec_set_b_r(*old(cpu), b, register),
        old(cpu).wf() ==> final(cpu).wf(),
        cycles == 2,
{
    let v: u8 = cpu.get_reg(register);
    cpu.set_reg(register, v | (1u8 << b));
    2
}

/// Sets bit `n` of the byte at HL.
pub fn set_n_hl(n: u32, cpu: &mut CPU, addr_space: &mut AddrSpace) -> (cycles: u8)
    requires
        n < 8,
    ensures
        AddrSpace::write_rel(
            *old(addr_space),
            word(old(cpu).h, old(cpu).l),
            old(addr_space).mem(word(old(cpu).h, old(cpu).l)) | (1u8 << n),
            *final(addr_space),
        ),
        *final(cpu) == *old(cpu),
        cycles == 4,
{
    let v: u8 = addr_space.read(cpu.hl());
    addr_space.write(cpu.hl(), v | (1u8 << n));
    4
}

pub open spec fn spec_res_b_r(c: CPU, b: u32, r: Register) -> CPU {
    c.spec_set_reg(r, c.spec_reg(r) & !(1u8 << b))
}

/// Clears bit `b` of a register.
pub fn res_b_r(b: u32, register: Register, cpu: &mut CPU) -> (cycles: u8)
    requires
        b < 8,
    ensures
        *final(cpu) == spec_res_b_r(*old(cpu), b, register),
        old(cpu).wf() ==> final(cpu).wf(),
        cycles == 2,
{
    let v: u8 = cpu.get_reg(register);
    cpu.set_reg(register, v & !(1u8 << b));
    2
}

/// Clears bit `b` of the byte at HL.
pub fn res_b_hl(b: u32, cpu: &mut CPU, addr_space: &mut AddrSpace) -> (cycles: u8)
    requires
        b < 8,
    ensures
        AddrSpace::write_rel(
            *old(addr_space),
            word(old(cpu).h, old(cpu).l),
            old(addr_space).mem(word(old(cpu).h, old(cpu).l)) & !(1u8 << b),
            *final(addr_space),
        ),
        *final(cpu) == *old(cpu),
        cycles == 2,
{
    let v: u8 = addr_space.read(cpu.hl());
    addr_space.write(cpu.hl(), v & !(1u8 << b));
    2
}

pub open spec fn bit_test_cpu(c: CPU, v: u8, n: u32) -> CPU {
    CPU { f: flags_byte(v & (1u8 << n) == 0, false, true, carry_of(c.f)), ..c }
}

/// Tests bit `n` of a byte: zero flag from the tested bit, half-carry
/// set, subtract cleared, carry untouched.
pub fn bit_n(value: u8, n: u32, cpu: &mut CPU)
    requires
        n < 8,
    ensures
        *final(cpu) == bit_test_cpu(*old(cpu), value, n),
        final(cpu).wf(),
{
    let b: u8 = 1u8 << n;
    let carry: bool = cpu.carry_flag();
    cpu.set_flags(value & b == 0, false, true, carry);
}

/// Tests bit `n` of a register.
pub fn bit_n_r(n: u32, register: Register, cpu: &mut CPU) -> (cycles: u8)
    requires
        n < 8,
    ensures
        *final(cpu) == bit_test_cpu(*old(cpu), old(cpu).spec_reg(register), n),
        final(cpu).wf(),
        cycles == 2,
{
    let v: u8 = cpu.get_reg(register);
    bit_n(v, n, cpu);
    2
}

/// Tests bit `n` of the byte at HL.
pub fn bit_n_hl(n: u32, cpu: &mut CPU, addr_space: &AddrSpace) -> (cycles: u8)
    requires
        n < 8,
    ensures
        *final(cpu) == bit_test_cpu(
            *old(cpu),
            addr_space.mem(word(old(cpu).h, old(cpu).l)),
            n,
        ),
        final(cpu).wf(),
        cycles == 4,
{
    let v: u8 = addr_space.read(cpu.hl());
    bit_n(v, n, cpu);
    4
}

// Rotates and shifts.  RL and RR rotate through the existing carry, RLC
// and RRC recirculate the shifted-out bit, SLA and SRL shift in zero,
// SRA preserves the sign bit.  The register-table forms set the zero
// flag from the result; the accumulator-only forms clear it.

pub open spec fn rl_val(c: CPU, v: u8) -> u8 {
    v << 1 | (if carry_of(c.f) {
        1u8
    } else {
        0u8
    })
}

pub open spec fn rl_cpu(c: CPU, v: u8) -> CPU {
    CPU { f: flags_byte(rl_val(c, v) == 0, false, false, v & 0x80 == 0x80), ..c }
}

/// Rotates a byte left through the carry flag.
pub fn rl(value: u8, cpu: &mut CPU) -> (result: u8)
    ensures
        result == rl_val(*old(cpu), value),
        *final(cpu) == rl_cpu(*old(cpu), value),
        final(cpu).wf(),
{
    let new_carry: bool = (value & 0x80) == 0x80;
    let result: u8 = value << 1 | (if cpu.carry_flag() {
        1
    } else {
        0
    });
    let z: bool = result == 0;
    cpu.set_flags(z, false, false, new_carry);
    result
}

pub open spec fn spec_rl_r(c: CPU, r: Register) -> CPU {
    rl_cpu(c, c.spec_reg(r)).spec_set_reg(r, rl_val(c, c.spec_reg(r)))
}

pub fn rl_r(register: Register, cpu: &mut CPU) -> (cycles: u8)
    ensures
        *final(cpu) == spec_rl_r(*old(cpu), register),
        final(cpu).wf(),
        cycles == 2,
{
    let v: u8 = cpu.get_reg(register);
    let result: u8 = rl(v, cpu);
    cpu.set_reg(register, result);
    2
}

pub fn rl_hl(cpu: &mut CPU, addr_space: &mut AddrSpace) -> (cycles: u8)
    ensures
        AddrSpace::write_rel(
            *old(addr_space),
            word(old(cpu).h, old(cpu).l),
            rl_val(*old(cpu), old(addr_space).mem(word(old(cpu).h, old(cpu).l))),
            *final(addr_space),
        ),
        *final(cpu) == rl_cpu(*old(cpu), old(addr_space).mem(word(old(cpu).h, old(cpu).l))),
        final(cpu).wf(),
        cycles == 4,
{
    let v: u8 = addr_space.read(cpu.hl());
    let result: u8 = rl(v, cpu);
    addr_space.write(cpu.hl(), result);
    4
}

pub open spec fn spec_rla(c: CPU) -> CPU {
    CPU { a: rl_val(c, c.a), f: flags_byte(false, false, false, c.a & 0x80 == 0x80), ..c }
}

/// Rotates the accumulator left through the carry flag; the zero flag is
/// unconditionally cleared.
pub fn rla(cpu: &mut CPU) -> (cycles: u8)
    ensures
        *final(cpu) == spec_rla(*old(cpu)),
        final(cpu).wf(),
        cycles == 2,
{
    let v: u8 = cpu.get_reg(Register::A);
    let result: u8 = rl(v, cpu);
    cpu.set_reg(Register::A, result);
    proof {
        crate::cpu::lemma_flags_byte(
            rl_val(*old(cpu), old(cpu).a) == 0,
            false,
            false,
            old(cpu).a & 0x80 == 0x80,
        );
    }
    let carry: bool = cpu.carry_flag();
    cpu.set_flags(false, false, false, carry);
    2
}

pub open spec fn rlc_val(v: u8) -> u8 {
    v << 1 | (if v & 0x80 == 0x80 {
        0x01u8
    } else {
        0u8
    })
}

pub open spec fn rlc_cpu(c: CPU, v: u8) -> CPU {
    CPU { f: flags_byte(rlc_val(v) == 0, false, false, v & 0x80 == 0x80), ..c }
}

/// Rotates a byte left, recirculating bit 7 into bit 0 and the carry.
pub fn rlc(value: u8, cpu: &mut CPU) -> (result: u8)
    ensures
        result == rlc_val(value),
        *final(cpu) == rlc_cpu(*old(cpu), value),
        final(cpu).wf(),
{
    let new_carry: bool = (value & 0x80) == 0x80;
    let result: u8 = value << 1 | (if new_carry {
        0x01
    } else {
        0
    });
    let z: bool = result == 0;
    cpu.set_flags(z, false, false, new_carry);
    result
}

pub open spec fn spec_rlc_r(c: CPU, r: Register) -> CPU {
    rlc_cpu(c, c.spec_reg(r)).spec_set_reg(r, rlc_val(c.spec_reg(r)))
}

pub fn rlc_r(register: Register, cpu: &mut CPU) -> (cycles: u8)
    ensures
        *final(cpu) == spec_rlc_r(*old(cpu), register),
        final(cpu).wf(),
        cycles == 2,
{
    let v: u8 = cpu.get_reg(register);
    let result: u8 = rlc(v, cpu);
    cpu.set_reg(register, result);
    2
}

pub fn rlc_hl(cpu: &mut CPU, addr_space: &mut AddrSpace) -> (cycles: u8)
    ensures
        AddrSpace::write_rel(
            *old(addr_space),
            word(old(cpu).h, old(cpu).l),
            rlc_val(old(addr_space).mem(word(old(cpu).h, old(cpu).l))),
            *final(addr_space),
        ),
        *final(cpu) == rlc_cpu(*old(cpu), old(addr_space).mem(word(old(cpu).h, old(cpu).l))),
        final(cpu).wf(),
        cycles == 4,
{
    let v: u8 = addr_space.read(cpu.hl());
    let result: u8 = rlc(v, cpu);
    addr_space.write(cpu.hl(), result);
    4
}

pub open spec fn spec_rlca(c: CPU) -> CPU {
    CPU { a: rlc_val(c.a), f: flags_byte(false, false, false, c.a & 0x80 == 0x80), ..c }
}

/// Rotates the accumulator left recirculating; the zero flag is
/// unconditionally cleared.
pub fn rlca(cpu: &mut CPU) -> (cycles: u8)
    ensures
        *final(cpu) == spec_rlca(*old(cpu)),
        final(cpu).wf(),
        cycles == 2,
{
    let v: u8 = cpu.get_reg(Register::A);
    let result: u8 = rlc(v, cpu);
    cpu.set_reg(Register::A, result);
    proof {
        crate::cpu::lemma_flags_byte(
            rlc_val(old(cpu).a) == 0,
            false,
            false,
            old(cpu).a & 0x80 == 0x80,
        );
    }
    let carry: bool = cpu.carry_flag();
    cpu.set_flags(false, false, false, carry);
    2
}

pub open spec fn rrc_val(v: u8) -> u8 {
    v >> 1 | (if v & 0x01 == 0x01 {
        0x80u8
    } else {
        0u8
    })
}

pub open spec fn rrc_cpu(c: CPU, v: u8) -> CPU {
    CPU { f: flags_byte(rrc_val(v) == 0, false, false, v & 0x01 == 0x01), ..c }
}

/// Rotates a byte right, recirculating bit 0 into bit 7 and the carry.
pub fn rrc(value: u8, cpu: &mut CPU) -> (result: u8)
    ensures
        result == rrc_val(value),
        *final(cpu) == rrc_cpu(*old(cpu), value),
        final(cpu).wf(),
{
    let new_carry: bool = (value & 0x01) == 0x01;
    let result: u8 = value >> 1 | (if new_carry {
        0x80
    } else {
        0
    });
    let z: bool = result == 0;
    cpu.set_flags(z, false, false, new_carry);
    result
}

pub open spec fn spec_rrc_r(c: CPU, r: Register) -> CPU {
    rrc_cpu(c, c.spec_reg(r)).spec_set_reg(r, rrc_val(c.spec_reg(r)))
}

pub fn rrc_r(register: Register, cpu: &mut CPU) -> (cycles: u8)
    ensures
        *final(cpu) == spec_rrc_r(*old(cpu), register),
        final(cpu).wf(),
        cycles == 2,
{
    let v: u8 = cpu.get_reg(register);
    let result: u8 = rrc(v, cpu);
    cpu.set_reg(register, result);
    2
}

pub fn rrc_hl(cpu: &mut CPU, addr_space: &mut AddrSpace) -> (cycles: u8)
    ensures
        AddrSpace::write_rel(
            *old(addr_space),
            word(old(cpu).h, old(cpu).l),
            rrc_val(old(addr_space).mem(word(old(cpu).h, old(cpu).l))),
            *final(addr_space),
        ),
        *final(cpu) == rrc_cpu(*old(cpu), old(addr_space).mem(word(old(cpu).h, old(cpu).l))),
        final(cpu).wf(),
        cycles == 4,
{
    let v: u8 = addr_space.read(cpu.hl());
    let result: u8 = rrc(v, cpu);
    addr_space.write(cpu.hl(), result);
    4
}

pub open spec fn spec_rrca(c: CPU) -> CPU {
    CPU { a: rrc_val(c.a), f: flags_byte(false, false, false, c.a & 0x01 == 0x01), ..c }
}

/// Rotates the accumulator right recirculating; the zero flag is
/// unconditionally cleared.
pub fn rrca(cpu: &mut CPU) -> (cycles: u8)
    ensures
        *final(cpu) == spec_rrca(*old(cpu)),
        final(cpu).wf(),
        cycles == 2,
{
    let v: u8 = cpu.get_reg(Register::A);
    let result: u8 = rrc(v, cpu);
    cpu.set_reg(Register::A, result);
    proof {
        crate::cpu::lemma_flags_byte(
            rrc_val(old(cpu).a) == 0,
            false,
            false,
            old(cpu).a & 0x01 == 0x01,
        );
    }
    let carry: bool = cpu.carry_flag();
    cpu.set_flags(false, false, false, carry);
    2
}

pub open spec fn rr_val(c: CPU, v: u8) -> u8 {
    (v >> 1) | (if carry_of(c.f) {
        0x80u8
    } else {
        0u8
    })
}

pub open spec fn rr_cpu(c: CPU, v: u8) -> CPU {
    CPU { f: flags_byte(rr_val(c, v) == 0, false, false, v & 0x01 == 0x01), ..c }
}

/// Rotates a byte right through the carry flag.
pub fn rr(value: u8, cpu: &mut CPU) -> (result: u8)
    ensures
        result == rr_val(*old(cpu), value),
        *final(cpu) == rr_cpu(*old(cpu), value),
        final(cpu).wf(),
{
    let new_carry: bool = (value & 0x01) == 0x01;
    let result: u8 = (value >> 1) | (if cpu.carry_flag() {
        0x80
    } else {
        0
    });
    let z: bool = result == 0;
    cpu.set_flags(z, false, false, new_carry);
    result
}

pub open spec fn spec_rr_r(c: CPU, r: Register) -> CPU {
    rr_cpu(c, c.spec_reg(r)).spec_set_reg(r, rr_val(c, c.spec_reg(r)))
}

pub fn rr_r(register: Register, cpu: &mut CPU) -> (cycles: u8)
    ensures
        *final(cpu) == spec_rr_r(*old(cpu), register),
        final(cpu).wf(),
        cycles == 2,
{
    let v: u8 = cpu.get_reg(register);
    let result: u8 = rr(v, cpu);
    cpu.set_reg(register, result);
    2
}

pub fn rr_hl(cpu: &mut CPU, addr_space: &mut AddrSpace) -> (cycles: u8)
    ensures
        AddrSpace::write_rel(
            *old(addr_space),
            word(old(cpu).h, old(cpu).l),
            rr_val(*old(cpu), old(addr_space).mem(word(old(cpu).h, old(cpu).l))),
            *final(addr_space),
        ),
        *final(cpu) == rr_cpu(*old(cpu), old(addr_space).mem(word(old(cpu).h, old(cpu).l))),
        final(cpu).wf(),
        cycles == 4,
{
    let v: u8 = addr_space.read(cpu.hl());
    let result: u8 = rr(v, cpu);
    addr_space.write(cpu.hl(), result);
    4
}

pub open spec fn spec_rra(c: CPU) -> CPU {
    CPU { a: rr_val(c, c.a), f: flags_byte(false, false, false, c.a & 0x01 == 0x01), ..c }
}

/// Rotates the accumulator right through the carry flag; the zero flag
/// is unconditionally cleared.
pub fn rra(cpu: &mut CPU) -> (cycles: u8)
    ensures
        *final(cpu) == spec_rra(*old(cpu)),
        final(cpu).wf(),
        cycles == 2,
{
    let v: u8 = cpu.get_reg(Register::A);
    let result: u8 = rr(v, cpu);
    cpu.set_reg(Register::A, result);
    proof {
        crate::cpu::lemma_flags_byte(
            rr_val(*old(cpu), old(cpu).a) == 0,
            false,
            false,
            old(cpu).a & 0x01 == 0x01,
        );
    }
    let carry: bool = cpu.carry_flag();
    cpu.set_flags(false, false, false, carry);
    2
}

pub open spec fn srl_val(v: u8) -> u8 {
    (v >> 1) & (!0x80u8)
}

pub open spec fn srl_cpu(c: CPU, v: u8) -> CPU {
    CPU { f: flags_byte(srl_val(v) == 0, false, false, v & 0x01 == 0x01), ..c }
}

/// Shifts a byte right, clearing bit 7; bit 0 moves into the carry.
pub fn srl(value: u8, cpu: &mut CPU) -> (result: u8)
    ensures
        result == srl_val(value),
        *final(cpu) == srl_cpu(*old(cpu), value),
        final(cpu).wf(),
{
    let result: u8 = (value >> 1) & (!0x80);
    let z: bool = result == 0;
    cpu.set_flags(z, false, false, value & 0x01 == 0x01);
    result
}

pub open spec fn spec_srl_r(c: CPU, r: Register) -> CPU {
    srl_cpu(c, c.spec_reg(r)).spec_set_reg(r, srl_val(c.spec_reg(r)))
}

pub fn srl_r(register: Register, cpu: &mut CPU) -> (cycles: u8)
    ensures
        *final(cpu) == spec_srl_r(*old(cpu), register),
        final(cpu).wf(),
        cycles == 2,
{
    let v: u8 = cpu.get_reg(register);
    let result: u8 = srl(v, cpu);
    cpu.set_reg(register, result);
    2
}

pub fn srl_hl(cpu: &mut CPU, addr_space: &mut AddrSpace) -> (cycles: u8)
    ensures
        AddrSpace::write_rel(
            *old(addr_space),
            word(old(cpu).h, old(cpu).l),
            srl_val(old(addr_space).mem(word(old(cpu).h, old(cpu).l))),
            *final(addr_space),
        ),
        *final(cpu) == srl_cpu(*old(cpu), old(addr_space).mem(word(old(cpu).h, old(cpu).l))),
        final(cpu).wf(),
        cycles == 4,
{
    let v: u8 = addr_space.read(cpu.hl());
    let result: u8 = srl(v, cpu);
    addr_space.write(cpu.hl(), result);
    4
}

pub open spec fn sla_val(v: u8) -> u8 {
    v << 1
}

pub open spec fn sla_cpu(c: CPU, v: u8) -> CPU {
    CPU { f: flags_byte(sla_val(v) == 0, false, false, v & 0x80 == 0x80), ..c }
}

/// Shifts a byte left, filling bit 0 with zero; bit 7 moves into the
/// carry.
pub fn sla(value: u8, cpu: &mut CPU) -> (result: u8)
    ensures
        result == sla_val(value),
        *final(cpu) == sla_cpu(*old(cpu), value),
        final(cpu).wf(),
{
    let new_carry: bool = (value & 0x80) == 0x80;
    let result: u8 = value << 1;
    let z: bool = result == 0;
    cpu.set_flags(z, false, false, new_carry);
    result
}

pub open spec fn spec_sla_r(c: CPU, r: Register) -> CPU {
    sla_cpu(c, c.spec_reg(r)).spec_set_reg(r, sla_val(c.spec_reg(r)))
}

pub fn sla_r(register: Register, cpu: &mut CPU) -> (cycles: u8)
    ensures
        *final(cpu) == spec_sla_r(*old(cpu), register),
        final(cpu).wf(),
        cycles == 2,
{
    let v: u8 = cpu.get_reg(register);
    let result: u8 = sla(v, cpu);
    cpu.set_reg(register, result);
    2
}

pub fn sla_hl(cpu: &mut CPU, addr_space: &mut AddrSpace) -> (cycles: u8)
    ensures
        AddrSpace::write_rel(
            *old(addr_space),
            word(old(cpu).h, old(cpu).l),
            sla_val(old(addr_space).mem(word(old(cpu).h, old(cpu).l))),
            *final(addr_space),
        ),
        *final(cpu) == sla_cpu(*old(cpu), old(addr_space).mem(word(old(cpu).h, old(cpu).l))),
        final(cpu).wf(),
        cycles == 2,
{
    let v: u8 = addr_space.read(cpu.hl());
    let result: u8 = sla(v, cpu);
    addr_space.write(cpu.hl(), result);
    2
}

pub open spec fn sra_val(v: u8) -> u8 {
    (v >> 1) | (0x80 & v)
}

pub open spec fn sra_cpu(c: CPU, v: u8) -> CPU {
    CPU { f: flags_byte(sra_val(v) == 0, false, false, v & 0x01 == 0x01), ..c }
}

/// Shifts a byte right arithmetically, preserving bit 7; bit 0 moves
/// into the carry.
pub fn sra(value: u8, cpu: &mut CPU) -> (result: u8)
    ensures
        result == sra_val(value),
        *final(cpu) == sra_cpu(*old(cpu), value),
        final(cpu).wf(),
{
    let new_carry: bool = (value & 0x01) == 0x01;
    let result: u8 = (value >> 1) | (0x80 & value);
    let z: bool = result == 0;
    cpu.set_flags(z, false, false, new_carry);
    result
}

pub open spec fn spec_sra_r(c: CPU, r: Register) -> CPU {
    sra_cpu(c, c.spec_reg(r)).spec_set_reg(r, sra_val(c.spec_reg(r)))
}

pub fn sra_r(register: Register, cpu: &mut CPU) -> (cycles: u8)
    ensures
        *final(cpu) == spec_sra_r(*old(cpu), register),
        final(cpu).wf(),
        cycles == 2,
{
    let v: u8 = cpu.get_reg(register);
    let result: u8 = sra(v, cpu);
    cpu.set_reg(register, result);
    2
}

pub fn sra_hl(cpu: &mut CPU, addr_space: &mut AddrSpace) -> (cycles: u8)
    ensures
        AddrSpace::write_rel(
            *old(addr_space),
            word(old(cpu).h, old(cpu).l),
            sra_val(old(addr_space).mem(word(old(cpu).h, old(cpu).l))),
            *final(addr_space),
        ),
        *final(cpu) == sra_cpu(*old(cpu), old(addr_space).mem(word(old(cpu).h, old(cpu).l))),
        final(cpu).wf(),
        cycles == 2,
{
    let v: u8 = addr_space.read(cpu.hl());
    let result: u8 = sra(v, cpu);
    addr_space.write(cpu.hl(), result);
    2
}


// Named relations for the instructions that push onto the stack or
// branch on a condition; the dispatch relation below speaks through
// them.

/// Two stack writes at sp-1 and sp-2, and the stack pointer lowered by
/// two.
pub open spec fn push_rel(r1: Register, r2: Register, c0: CPU, b0: AddrSpace, c1: CPU, b1: AddrSpace) -> bool {
    &&& exists|bm: AddrSpace|
        AddrSpace::write_rel(b0, wrap_dec16(c0.sp), c0.spec_reg(r1), bm) && AddrSpace::write_rel(
            bm,
            wrap_dec16_2(c0.sp),
            c0.spec_reg(r2),
            b1,
        )
    &&& c1 == (CPU { sp: wrap_dec16_2(c0.sp), ..c0 })
}

/// The return address pushed high byte first and the program counter
/// set to the fixed vector `n`.
pub open spec fn rst_rel(n: u16, c0: CPU, b0: AddrSpace, c1: CPU, b1: AddrSpace) -> bool {
    &&& exists|bm: AddrSpace|
        AddrSpace::write_rel(b0, wrap_dec16(c0.sp), high8(c0.pc), bm) && AddrSpace::write_rel(
            bm,
            wrap_dec16_2(c0.sp),
            low8(c0.pc),
            b1,
        )
    &&& c1 == (CPU { sp: wrap_dec16_2(c0.sp), pc: n, ..c0 })
}

/// A conditional call: both immediate bytes are consumed either way;
/// when taken, the advanced return address is pushed and the immediate
/// word becomes the program counter.
pub open spec fn call_rel(cc: bool, c0: CPU, b0: AddrSpace, c1: CPU, b1: AddrSpace, cycles: u8) -> bool {
    if cc {
        &&& exists|bm: AddrSpace|
            AddrSpace::write_rel(b0, wrap_dec16(c0.sp), high8(fetched2(c0).pc), bm)
                && AddrSpace::write_rel(bm, wrap_dec16_2(c0.sp), low8(fetched2(c0).pc), b1)
        &&& c1 == (CPU { sp: wrap_dec16_2(c0.sp), pc: imm16(c0, b0), ..c0 })
        &&& cycles == 6
    } else {
        &&& b1 == b0
        &&& c1 == fetched2(c0)
        &&& cycles == 3
    }
}

/// A conditional relative jump: the offset byte is consumed either way.
pub open spec fn jr_rel(cc: bool, c0: CPU, b0: AddrSpace, c1: CPU, b1: AddrSpace, cycles: u8) -> bool {
    &&& b1 == b0
    &&& if cc {
        c1 == (CPU {
            pc: wrap_add_signed16(wrap_inc16(c0.pc), as_signed8(b0.mem(c0.pc))),
            ..c0
        }) && cycles == 3
    } else {
        c1 == fetched(c0) && cycles == 2
    }
}

/// A conditional absolute jump: both immediate bytes are consumed
/// either way.
pub open spec fn jp_cc_rel(cc: bool, c0: CPU, b0: AddrSpace, c1: CPU, b1: AddrSpace, cycles: u8) -> bool {
    &&& b1 == b0
    &&& if cc {
        c1 == (CPU { pc: imm16(c0, b0), ..c0 }) && cycles == 3
    } else {
        c1 == fetched2(c0) && cycles == 2
    }
}

/// A conditional return; the cycle cost does not depend on the
/// condition.
pub open spec fn ret_rel(cc: bool, c0: CPU, b0: AddrSpace, c1: CPU, b1: AddrSpace, cycles: u8) -> bool {
    &&& b1 == b0
    &&& cycles == 2
    &&& if cc {
        c1 == (CPU {
            pc: word(b0.mem(wrap_inc16(c0.sp)), b0.mem(c0.sp)),
            sp: wrap_inc16_2(c0.sp),
            ..c0
        })
    } else {
        c1 == c0
    }
}

/// The rotate, shift and swap quarter of the extended table.
pub open spec fn cb_shift_rel(op: u8, c0: CPU, b0: AddrSpace, c1: CPU, b1: AddrSpace, cycles: u8) -> bool {
    match op {
        0x07 => c1 == spec_rlc_r(c0, Register::A) && b1 == b0 && cycles == 2,
        0x00 => c1 == spec_rlc_r(c0, Register::B) && b1 == b0 && cycles == 2,
        0x01 => c1 == spec_rlc_r(c0, Register::C) && b1 == b0 && cycles == 2,
        0x02 => c1 == spec_rlc_r(c0, Register::D) && b1 == b0 && cycles == 2,
        0x03 => c1 == spec_rlc_r(c0, Register::E) && b1 == b0 && cycles == 2,
        0x04 => c1 == spec_rlc_r(c0, Register::H) && b1 == b0 && cycles == 2,
        0x05 => c1 == spec_rlc_r(c0, Register::L) && b1 == b0 && cycles == 2,
        0x06 => AddrSpace::write_rel(b0, word(c0.h, c0.l), rlc_val(b0.mem(word(c0.h, c0.l))), b1) && c1 == rlc_cpu(c0, b0.mem(word(c0.h, c0.l))) && cycles == 4,
        0x17 => c1 == spec_rl_r(c0, Register::A) && b1 == b0 && cycles == 2,
        0x10 => c1 == spec_rl_r(c0, Register::B) && b1 == b0 && cycles == 2,
        0x11 => c1 == spec_rl_r(c0, Register::C) && b1 == b0 && cycles == 2,
        0x12 => c1 == spec_rl_r(c0, Register::D) && b1 == b0 && cycles == 2,
        0x13 => c1 == spec_rl_r(c0, Register::E) && b1 == b0 && cycles == 2,
        0x14 => c1 == spec_rl_r(c0, Register::H) && b1 == b0 && cycles == 2,
        0x15 => c1 == spec_rl_r(c0, Register::L) && b1 == b0 && cycles == 2,
        0x16 => AddrSpace::write_rel(b0, word(c0.h, c0.l), rl_val(c0, b0.mem(word(c0.h, c0.l))), b1) && c1 == rl_cpu(c0, b0.mem(word(c0.h, c0.l))) && cycles == 4,
        0x37 => c1 == spec_swap_r(c0, Register::A) && b1 == b0 && cycles == 2,
        0x30 => c1 == spec_swap_r(c0, Register::B) && b1 == b0 && cycles == 2,
        0x31 => c1 == spec_swap_r(c0, Register::C) && b1 == b0 && cycles == 2,
        0x32 => c1 == spec_swap_r(c0, Register::D) && b1 == b0 && cycles == 2,
        0x33 => c1 == spec_swap_r(c0, Register::E) && b1 == b0 && cycles == 2,
        0x34 => c1 == spec_swap_r(c0, Register::H) && b1 == b0 && cycles == 2,
        0x35 => c1 == spec_swap_r(c0, Register::L) && b1 == b0 && cycles == 2,
        0x36 => AddrSpace::write_rel(b0, word(c0.h, c0.l), swap_val(b0.mem(word(c0.h, c0.l))), b1) && c1 == swap_cpu(c0, b0.mem(word(c0.h, c0.l))) && cycles == 4,
        0x3F => c1 == spec_srl_r(c0, Register::A) && b1 == b0 && cycles == 2,
        0x38 => c1 == spec_srl_r(c0, Register::B) && b1 == b0 && cycles == 2,
        0x39 => c1 == spec_srl_r(c0, Register::C) && b1 == b0 && cycles == 2,
        0x3A => c1 == spec_srl_r(c0, Register::D) && b1 == b0 && cycles == 2,
        0x3B => c1 == spec_srl_r(c0, Register::E) && b1 == b0 && cycles == 2,
        0x3C => c1 == spec_srl_r(c0, Register::H) && b1 == b0 && cycles == 2,
        0x3D => c1 == spec_srl_r(c0, Register::L) && b1 == b0 && cycles == 2,
        0x3E => AddrSpace::write_rel(b0, word(c0.h, c0.l), srl_val(b0.mem(word(c0.h, c0.l))), b1) && c1 == srl_cpu(c0, b0.mem(word(c0.h, c0.l))) && cycles == 4,
        0x0F => c1 == spec_rrc_r(c0, Register::A) && b1 == b0 && cycles == 2,
        0x08 => c1 == spec_rrc_r(c0, Register::B) && b1 == b0 && cycles == 2,
        0x09 => c1 == spec_rrc_r(c0, Register::C) && b1 == b0 && cycles == 2,
        0x0A => c1 == spec_rrc_r(c0, Register::D) && b1 == b0 && cycles == 2,
        0x0B => c1 == spec_rrc_r(c0, Register::E) && b1 == b0 && cycles == 2,
        0x0C => c1 == spec_rrc_r(c0, Register::H) && b1 == b0 && cycles == 2,
        0x0D => c1 == spec_rrc_r(c0, Register::L) && b1 == b0 && cycles == 2,
        0x0E => AddrSpace::write_rel(b0, word(c0.h, c0.l), rrc_val(b0.mem(word(c0.h, c0.l))), b1) && c1 == rrc_cpu(c0, b0.mem(word(c0.h, c0.l))) && cycles == 4,
        0x1F => c1 == spec_rr_r(c0, Register::A) && b1 == b0 && cycles == 2,
        0x18 => c1 == spec_rr_r(c0, Register::B) && b1 == b0 && cycles == 2,
        0x19 => c1 == spec_rr_r(c0, Register::C) && b1 == b0 && cycles == 2,
        0x1A => c1 == spec_rr_r(c0, Register::D) && b1 == b0 && cycles == 2,
        0x1B => c1 == spec_rr_r(c0, Register::E) && b1 == b0 && cycles == 2,
        0x1C => c1 == spec_rr_r(c0, Register::H) && b1 == b0 && cycles == 2,
        0x1D => c1 == spec_rr_r(c0, Register::L) && b1 == b0 && cycles == 2,
        0x1E => AddrSpace::write_rel(b0, word(c0.h, c0.l), rr_val(c0, b0.mem(word(c0.h, c0.l))), b1) && c1 == rr_cpu(c0, b0.mem(word(c0.h, c0.l))) && cycles == 4,
        0x27 => c1 == spec_sla_r(c0, Register::A) && b1 == b0 && cycles == 2,
        0x20 => c1 == spec_sla_r(c0, Register::B) && b1 == b0 && cycles == 2,
        0x21 => c1 == spec_sla_r(c0, Register::C) && b1 == b0 && cycles == 2,
        0x22 => c1 == spec_sla_r(c0, Register::D) && b1 == b0 && cycles == 2,
        0x23 => c1 == spec_sla_r(c0, Register::E) && b1 == b0 && cycles == 2,
        0x24 => c1 == spec_sla_r(c0, Register::H) && b1 == b0 && cycles == 2,
        0x25 => c1 == spec_sla_r(c0, Register::L) && b1 == b0 && cycles == 2,
        0x26 => AddrSpace::write_rel(b0, word(c0.h, c0.l), sla_val(b0.mem(word(c0.h, c0.l))), b1) && c1 == sla_cpu(c0, b0.mem(word(c0.h, c0.l))) && cycles == 2,
        0x2F => c1 == spec_sra_r(c0, Register::A) && b1 == b0 && cycles == 2,
        0x28 => c1 == spec_sra_r(c0, Register::B) && b1 == b0 && cycles == 2,
        0x29 => c1 == spec_sra_r(c0, Register::C) && b1 == b0 && cycles == 2,
        0x2A => c1 == spec_sra_r(c0, Register::D) && b1 == b0 && cycles == 2,
        0x2B => c1 == spec_sra_r(c0, Register::E) && b1 == b0 && cycles == 2,
        0x2C => c1 == spec_sra_r(c0, Register::H) && b1 == b0 && cycles == 2,
        0x2D => c1 == spec_sra_r(c0, Register::L) && b1 == b0 && cycles == 2,
        0x2E => AddrSpace::write_rel(b0, word(c0.h, c0.l), sra_val(b0.mem(word(c0.h, c0.l))), b1) && c1 == sra_cpu(c0, b0.mem(word(c0.h, c0.l))) && cycles == 2,
        _ => false,
    }
}

/// The bit-test quarter of the extended table.
pub open spec fn cb_bit_rel(op: u8, c0: CPU, b0: AddrSpace, c1: CPU, b1: AddrSpace, cycles: u8) -> bool {
    match op {
        0x40 => c1 == bit_test_cpu(c0, c0.spec_reg(Register::B), 0) && b1 == b0 && cycles == 2,
        0x50 => c1 == bit_test_cpu(c0, c0.spec_reg(Register::B), 2) && b1 == b0 && cycles == 2,
        0x60 => c1 == bit_test_cpu(c0, c0.spec_reg(Register::B), 4) && b1 == b0 && cycles == 2,
        0x70 => c1 == bit_test_cpu(c0, c0.spec_reg(Register::B), 6) && b1 == b0 && cycles == 2,
        0x41 => c1 == bit_test_cpu(c0, c0.spec_reg(Register::C), 0) && b1 == b0 && cycles == 2,
        0x51 => c1 == bit_test_cpu(c0, c0.spec_reg(Register::C), 2) && b1 == b0 && cycles == 2,
        0x61 => c1 == bit_test_cpu(c0, c0.spec_reg(Register::C), 4) && b1 == b0 && cycles == 2,
        0x71 => c1 == bit_test_cpu(c0, c0.spec_reg(Register::C), 6) && b1 == b0 && cycles == 2,
        0x42 => c1 == bit_test_cpu(c0, c0.spec_reg(Register::D), 0) && b1 == b0 && cycles == 2,
        0x52 => c1 == bit_test_cpu(c0, c0.spec_reg(Register::D), 2) && b1 == b0 && cycles == 2,
        0x62 => c1 == bit_test_cpu(c0, c0.spec_reg(Register::D), 4) && b1 == b0 && cycles == 2,
        0x72 => c1 == bit_test_cpu(c0, c0.spec_reg(Register::D), 6) && b1 == b0 && cycles == 2,
        0x43 => c1 == bit_test_cpu(c0, c0.spec_reg(Register::E), 0) && b1 == b0 && cycles == 2,
        0x53 => c1 == bit_test_cpu(c0, c0.spec_reg(Register::E), 2) && b1 == b0 && cycles == 2,
        0x63 => c1 == bit_test_cpu(c0, c0.spec_reg(Register::E), 4) && b1 == b0 && cycles == 2,
        0x73 => c1 == bit_test_cpu(c0, c0.spec_reg(Register::E), 6) && b1 == b0 && cycles == 2,
        0x44 => c1 == bit_test_cpu(c0, c0.spec_reg(Register::H), 0) && b1 == b0 && cycles == 2,
        0x54 => c1 == bit_test_cpu(c0, c0.spec_reg(Register::H), 2) && b1 == b0 && cycles == 2,
        0x64 => c1 == bit_test_cpu(c0, c0.spec_reg(Register::H), 4) && b1 == b0 && cycles == 2,
        0x74 => c1 == bit_test_cpu(c0, c0.spec_reg(Register::H), 6) && b1 == b0 && cycles == 2,
        0x45 => c1 == bit_test_cpu(c0, c0.spec_reg(Register::L), 0) && b1 == b0 && cycles == 2,
        0x55 => c1 == bit_test_cpu(c0, c0.spec_reg(Register::L), 2) && b1 == b0 && cycles == 2,
        0x65 => c1 == bit_test_cpu(c0, c0.spec_reg(Register::L), 4) && b1 == b0 && cycles == 2,
        0x75 => c1 == bit_test_cpu(c0, c0.spec_reg(Register::L), 6) && b1 == b0 && cycles == 2,
        0x47 => c1 == bit_test_cpu(c0, c0.spec_reg(Register::A), 0) && b1 == b0 && cycles == 2,
        0x57 => c1 == bit_test_cpu(c0, c0.spec_reg(Register::A), 2) && b1 == b0 && cycles == 2,
        0x67 => c1 == bit_test_cpu(c0, c0.spec_reg(Register::A), 4) && b1 == b0 && cycles == 2,
        0x77 => c1 == bit_test_cpu(c0, c0.spec_reg(Register::A), 6) && b1 == b0 && cycles == 2,
        0x48 => c1 == bit_test_cpu(c0, c0.spec_reg(Register::B), 1) && b1 == b0 && cycles == 2,
        0x58 => c1 == bit_test_cpu(c0, c0.spec_reg(Register::B), 3) && b1 == b0 && cycles == 2,
        0x68 => c1 == bit_test_cpu(c0, c0.spec_reg(Register::B), 5) && b1 == b0 && cycles == 2,
        0x78 => c1 == bit_test_cpu(c0, c0.spec_reg(Register::B), 7) && b1 == b0 && cycles == 2,
        0x49 => c1 == bit_test_cpu(c0, c0.spec_reg(Register::C), 1) && b1 == b0 && cycles == 2,
        0x59 => c1 == bit_test_cpu(c0, c0.spec_reg(Register::C), 3) && b1 == b0 && cycles == 2,
        0x69 => c1 == bit_test_cpu(c0, c0.spec_reg(Register::C), 5) && b1 == b0 && cycles == 2,
        0x79 => c1 == bit_test_cpu(c0, c0.spec_reg(Register::C), 7) && b1 == b0 && cycles == 2,
        0x4A => c1 == bit_test_cpu(c0, c0.spec_reg(Register::D), 1) && b1 == b0 && cycles == 2,
        0x5A => c1 == bit_test_cpu(c0, c0.spec_reg(Register::D), 3) && b1 == b0 && cycles == 2,
        0x6A => c1 == bit_test_cpu(c0, c0.spec_reg(Register::D), 5) && b1 == b0 && cycles == 2,
        0x7A => c1 == bit_test_cpu(c0, c0.spec_reg(Register::D), 7) && b1 == b0 && cycles == 2,
        0x4B => c1 == bit_test_cpu(c0, c0.spec_reg(Register::E), 1) && b1 == b0 && cycles == 2,
        0x5B => c1 == bit_test_cpu(c0, c0.spec_reg(Register::E), 3) && b1 == b0 && cycles == 2,
        0x6B => c1 == bit_test_cpu(c0, c0.spec_reg(Register::E), 5) && b1 == b0 && cycles == 2,
        0x7B => c1 == bit_test_cpu(c0, c0.spec_reg(Register::E), 7) && b1 == b0 && cycles == 2,
        0x4C => c1 == bit_test_cpu(c0, c0.spec_reg(Register::H), 1) && b1 == b0 && cycles == 2,
        0x5C => c1 == bit_test_cpu(c0, c0.spec_reg(Register::H), 3) && b1 == b0 && cycles == 2,
        0x6C => c1 == bit_test_cpu(c0, c0.spec_reg(Register::H), 5) && b1 == b0 && cycles == 2,
        0x7C => c1 == bit_test_cpu(c0, c0.spec_reg(Register::H), 7) && b1 == b0 && cycles == 2,
        0x4D => c1 == bit_test_cpu(c0, c0.spec_reg(Register::L), 1) && b1 == b0 && cycles == 2,
        0x5D => c1 == bit_test_cpu(c0, c0.spec_reg(Register::L), 3) && b1 == b0 && cycles == 2,
        0x6D => c1 == bit_test_cpu(c0, c0.spec_reg(Register::L), 5) && b1 == b0 && cycles == 2,
        0x7D => c1 == bit_test_cpu(c0, c0.spec_reg(Register::L), 7) && b1 == b0 && cycles == 2,
        0x4F => c1 == bit_test_cpu(c0, c0.spec_reg(Register::A), 1) && b1 == b0 && cycles == 2,
        0x5F => c1 == bit_test_cpu(c0, c0.spec_reg(Register::A), 3) && b1 == b0 && cycles == 2,
        0x6F => c1 == bit_test_cpu(c0, c0.spec_reg(Register::A), 5) && b1 == b0 && cycles == 2,
        0x7F => c1 == bit_test_cpu(c0, c0.spec_reg(Register::A), 7) && b1 == b0 && cycles == 2,
        0x46 => c1 == bit_test_cpu(c0, b0.mem(word(c0.h, c0.l)), 0) && b1 == b0 && cycles == 4,
        0x56 => c1 == bit_test_cpu(c0, b0.mem(word(c0.h, c0.l)), 2) && b1 == b0 && cycles == 4,
        0x66 => c1 == bit_test_cpu(c0, b0.mem(word(c0.h, c0.l)), 4) && b1 == b0 && cycles == 4,
        0x76 => c1 == bit_test_cpu(c0, b0.mem(word(c0.h, c0.l)), 6) && b1 == b0 && cycles == 4,
        0x4E => c1 == bit_test_cpu(c0, b0.mem(word(c0.h, c0.l)), 1) && b1 == b0 && cycles == 4,
        0x5E => c1 == bit_test_cpu(c0, b0.mem(word(c0.h, c0.l)), 3) && b1 == b0 && cycles == 4,
        0x6E => c1 == bit_test_cpu(c0, b0.mem(word(c0.h, c0.l)), 5) && b1 == b0 && cycles == 4,
        0x7E => c1 == bit_test_cpu(c0, b0.mem(word(c0.h, c0.l)), 7) && b1 == b0 && cycles == 4,
        _ => false,
    }
}

/// The bit-clear quarter of the extended table.
pub open spec fn cb_res_rel(op: u8, c0: CPU, b0: AddrSpace, c1: CPU, b1: AddrSpace, cycles: u8) -> bool {
    match op {
        0x87 => c1 == spec_res_b_r(c0, 0, Register::A) && b1 == b0 && cycles == 2,
        0x80 => c1 == spec_res_b_r(c0, 0, Register::B) && b1 == b0 && cycles == 2,
        0x81 => c1 == spec_res_b_r(c0, 0, Register::C) && b1 == b0 && cycles == 2,
        0x82 => c1 == spec_res_b_r(c0, 0, Register::D) && b1 == b0 && cycles == 2,
        0x83 => c1 == spec_res_b_r(c0, 0, Register::E) && b1 == b0 && cycles == 2,
        0x84 => c1 == spec_res_b_r(c0, 0, Register::H) && b1 == b0 && cycles == 2,
        0x85 => c1 == spec_res_b_r(c0, 0, Register::L) && b1 == b0 && cycles == 2,
        0x8F => c1 == spec_res_b_r(c0, 1, Register::A) && b1 == b0 && cycles == 2,
        0x88 => c1 == spec_res_b_r(c0, 1, Register::B) && b1 == b0 && cycles == 2,
        0x89 => c1 == spec_res_b_r(c0, 1, Register::C) && b1 == b0 && cycles == 2,
        0x8A => c1 == spec_res_b_r(c0, 1, Register::D) && b1 == b0 && cycles == 2,
        0x8B => c1 == spec_res_b_r(c0, 1, Register::E) && b1 == b0 && cycles == 2,
        0x8C => c1 == spec_res_b_r(c0, 1, Register::H) && b1 == b0 && cycles == 2,
        0x8D => c1 == spec_res_b_r(c0, 1, Register::L) && b1 == b0 && cycles == 2,
        0x97 => c1 == spec_res_b_r(c0, 2, Register::A) && b1 == b0 && cycles == 2,
        0x90 => c1 == spec_res_b_r(c0, 2, Register::B) && b1 == b0 && cycles == 2,
        0x91 => c1 == spec_res_b_r(c0, 2, Register::C) && b1 == b0 && cycles == 2,
        0x92 => c1 == spec_res_b_r(c0, 2, Register::D) && b1 == b0 && cycles == 2,
        0x93 => c1 == spec_res_b_r(c0, 2, Register::E) && b1 == b0 && cycles == 2,
        0x94 => c1 == spec_res_b_r(c0, 2, Register::H) && b1 == b0 && cycles == 2,
        0x95 => c1 == spec_res_b_r(c0, 2, Register::L) && b1 == b0 && cycles == 2,
        0x9F => c1 == spec_res_b_r(c0, 3, Register::A) && b1 == b0 && cycles == 2,
        0x98 => c1 == spec_res_b_r(c0, 3, Register::B) && b1 == b0 && cycles == 2,
        0x99 => c1 == spec_res_b_r(c0, 3, Register::C) && b1 == b0 && cycles == 2,
        0x9A => c1 == spec_res_b_r(c0, 3, Register::D) && b1 == b0 && cycles == 2,
        0x9B => c1 == spec_res_b_r(c0, 3, Register::E) && b1 == b0 && cycles == 2,
        0x9C => c1 == spec_res_b_r(c0, 3, Register::H) && b1 == b0 && cycles == 2,
        0x9D => c1 == spec_res_b_r(c0, 3, Register::L) && b1 == b0 && cycles == 2,
        0xA7 => c1 == spec_res_b_r(c0, 4, Register::A) && b1 == b0 && cycles == 2,
        0xA0 => c1 == spec_res_b_r(c0, 4, Register::B) && b1 == b0 && cycles == 2,
        0xA1 => c1 == spec_res_b_r(c0, 4, Register::C) && b1 == b0 && cycles == 2,
        0xA2 => c1 == spec_res_b_r(c0, 4, Register::D) && b1 == b0 && cycles == 2,
        0xA3 => c1 == spec_res_b_r(c0, 4, Register::E) && b1 == b0 && cycles == 2,
        0xA4 => c1 == spec_res_b_r(c0, 4, Register::H) && b1 == b0 && cycles == 2,
        0xA5 => c1 == spec_res_b_r(c0, 4, Register::L) && b1 == b0 && cycles == 2,
        0xAF => c1 == spec_res_b_r(c0, 5, Register::A) && b1 == b0 && cycles == 2,
        0xA8 => c1 == spec_res_b_r(c0, 5, Register::B) && b1 == b0 && cycles == 2,
        0xA9 => c1 == spec_res_b_r(c0, 5, Register::C) && b1 == b0 && cycles == 2,
        0xAA => c1 == spec_res_b_r(c0, 5, Register::D) && b1 == b0 && cycles == 2,
        0xAB => c1 == spec_res_b_r(c0, 5, Register::E) && b1 == b0 && cycles == 2,
        0xAC => c1 == spec_res_b_r(c0, 5, Register::H) && b1 == b0 && cycles == 2,
        0xAD => c1 == spec_res_b_r(c0, 5, Register::L) && b1 == b0 && cycles == 2,
        0xB7 => c1 == spec_res_b_r(c0, 6, Register::A) && b1 == b0 && cycles == 2,
        0xB0 => c1 == spec_res_b_r(c0, 6, Register::B) && b1 == b0 && cycles == 2,
        0xB1 => c1 == spec_res_b_r(c0, 6, Register::C) && b1 == b0 && cycles == 2,
        0xB2 => c1 == spec_res_b_r(c0, 6, Register::D) && b1 == b0 && cycles == 2,
        0xB3 => c1 == spec_res_b_r(c0, 6, Register::E) && b1 == b0 && cycles == 2,
        0xB4 => c1 == spec_res_b_r(c0, 6, Register::H) && b1 == b0 && cycles == 2,
        0xB5 => c1 == spec_res_b_r(c0, 6, Register::L) && b1 == b0 && cycles == 2,
        0xBF => c1 == spec_res_b_r(c0, 7, Register::A) && b1 == b0 && cycles == 2,
        0xB8 => c1 == spec_res_b_r(c0, 7, Register::B) && b1 == b0 && cycles == 2,
        0xB9 => c1 == spec_res_b_r(c0, 7, Register::C) && b1 == b0 && cycles == 2,
        0xBA => c1 == spec_res_b_r(c0, 7, Register::D) && b1 == b0 && cycles == 2,
        0xBB => c1 == spec_res_b_r(c0, 7, Register::E) && b1 == b0 && cycles == 2,
        0xBC => c1 == spec_res_b_r(c0, 7, Register::H) && b1 == b0 && cycles == 2,
        0xBD => c1 == spec_res_b_r(c0, 7, Register::L) && b1 == b0 && cycles == 2,
        0x86 => AddrSpace::write_rel(b0, word(c0.h, c0.l), b0.mem(word(c0.h, c0.l)) & !(1u8 << 0u32), b1) && c1 == c0 && cycles == 2,
        0x8E => AddrSpace::write_rel(b0, word(c0.h, c0.l), b0.mem(word(c0.h, c0.l)) & !(1u8 << 1u32), b1) && c1 == c0 && cycles == 2,
        0x96 => AddrSpace::write_rel(b0, word(c0.h, c0.l), b0.mem(word(c0.h, c0.l)) & !(1u8 << 2u32), b1) && c1 == c0 && cycles == 2,
        0x9E => AddrSpace::write_rel(b0, word(c0.h, c0.l), b0.mem(word(c0.h, c0.l)) & !(1u8 << 3u32), b1) && c1 == c0 && cycles == 2,
        0xA6 => AddrSpace::write_rel(b0, word(c0.h, c0.l), b0.mem(word(c0.h, c0.l)) & !(1u8 << 4u32), b1) && c1 == c0 && cycles == 2,
        0xAE => AddrSpace::write_rel(b0, word(c0.h, c0.l), b0.mem(word(c0.h, c0.l)) & !(1u8 << 5u32), b1) && c1 == c0 && cycles == 2,
        0xB6 => AddrSpace::write_rel(b0, word(c0.h, c0.l), b0.mem(word(c0.h, c0.l)) & !(1u8 << 6u32), b1) && c1 == c0 && cycles == 2,
        0xBE => AddrSpace::write_rel(b0, word(c0.h, c0.l), b0.mem(word(c0.h, c0.l)) & !(1u8 << 7u32), b1) && c1 == c0 && cycles == 2,
        _ => false,
    }
}

/// The bit-set quarter of the extended table.
pub open spec fn cb_set_rel(op: u8, c0: CPU, b0: AddrSpace, c1: CPU, b1: AddrSpace, cycles: u8) -> bool {
    match op {
        0xC7 => c1 == spec_set_b_r(c0, 0, Register::A) && b1 == b0 && cycles == 2,
        0xC0 => c1 == spec_set_b_r(c0, 0, Register::B) && b1 == b0 && cycles == 2,
        0xC1 => c1 == spec_set_b_r(c0, 0, Register::C) && b1 == b0 && cycles == 2,
        0xC2 => c1 == spec_set_b_r(c0, 0, Register::D) && b1 == b0 && cycles == 2,
        0xC3 => c1 == spec_set_b_r(c0, 0, Register::E) && b1 == b0 && cycles == 2,
        0xC4 => c1 == spec_set_b_r(c0, 0, Register::H) && b1 == b0 && cycles == 2,
        0xC5 => c1 == spec_set_b_r(c0, 0, Register::L) && b1 == b0 && cycles == 2,
        0xCF => c1 == spec_set_b_r(c0, 1, Register::A) && b1 == b0 && cycles == 2,
        0xC8 => c1 == spec_set_b_r(c0, 1, Register::B) && b1 == b0 && cycles == 2,
        0xC9 => c1 == spec_set_b_r(c0, 1, Register::C) && b1 == b0 && cycles == 2,
        0xCA => c1 == spec_set_b_r(c0, 1, Register::D) && b1 == b0 && cycles == 2,
        0xCB => c1 == spec_set_b_r(c0, 1, Register::E) && b1 == b0 && cycles == 2,
        0xCC => c1 == spec_set_b_r(c0, 1, Register::H) && b1 == b0 && cycles == 2,
        0xCD => c1 == spec_set_b_r(c0, 1, Register::L) && b1 == b0 && cycles == 2,
        0xD7 => c1 == spec_set_b_r(c0, 2, Register::A) && b1 == b0 && cycles == 2,
        0xD0 => c1 == spec_set_b_r(c0, 2, Register::B) && b1 == b0 && cycles == 2,
        0xD1 => c1 == spec_set_b_r(c0, 2, Register::C) && b1 == b0 && cycles == 2,
        0xD2 => c1 == spec_set_b_r(c0, 2, Register::D) && b1 == b0 && cycles == 2,
        0xD3 => c1 == spec_set_b_r(c0, 2, Register::E) && b1 == b0 && cycles == 2,
        0xD4 => c1 == spec_set_b_r(c0, 2, Register::H) && b1 == b0 && cycles == 2,
        0xD5 => c1 == spec_set_b_r(c0, 2, Register::L) && b1 == b0 && cycles == 2,
        0xDF => c1 == spec_set_b_r(c0, 3, Register::A) && b1 == b0 && cycles == 2,
        0xD8 => c1 == spec_set_b_r(c0, 3, Register::B) && b1 == b0 && cycles == 2,
        0xD9 => c1 == spec_set_b_r(c0, 3, Register::C) && b1 == b0 && cycles == 2,
        0xDA => c1 == spec_set_b_r(c0, 3, Register::D) && b1 == b0 && cycles == 2,
        0xDB => c1 == spec_set_b_r(c0, 3, Register::E) && b1 == b0 && cycles == 2,
        0xDC => c1 == spec_set_b_r(c0, 3, Register::H) && b1 == b0 && cycles == 2,
        0xDD => c1 == spec_set_b_r(c0, 3, Register::L) && b1 == b0 && cycles == 2,
        0xE7 => c1 == spec_set_b_r(c0, 4, Register::A) && b1 == b0 && cycles == 2,
        0xE0 => c1 == spec_set_b_r(c0, 4, Register::B) && b1 == b0 && cycles == 2,
        0xE1 => c1 == spec_set_b_r(c0, 4, Register::C) && b1 == b0 && cycles == 2,
        0xE2 => c1 == spec_set_b_r(c0, 4, Register::D) && b1 == b0 && cycles == 2,
        0xE3 => c1 == spec_set_b_r(c0, 4, Register::E) && b1 == b0 && cycles == 2,
        0xE4 => c1 == spec_set_b_r(c0, 4, Register::H) && b1 == b0 && cycles == 2,
        0xE5 => c1 == spec_set_b_r(c0, 4, Register::L) && b1 == b0 && cycles == 2,
        0xEF => c1 == spec_set_b_r(c0, 5, Register::A) && b1 == b0 && cycles == 2,
        0xE8 => c1 == spec_set_b_r(c0, 5, Register::B) && b1 == b0 && cycles == 2,
        0xE9 => c1 == spec_set_b_r(c0, 5, Register::C) && b1 == b0 && cycles == 2,
        0xEA => c1 == spec_set_b_r(c0, 5, Register::D) && b1 == b0 && cycles == 2,
        0xEB => c1 == spec_set_b_r(c0, 5, Register::E) && b1 == b0 && cycles == 2,
        0xEC => c1 == spec_set_b_r(c0, 5, Register::H) && b1 == b0 && cycles == 2,
        0xED => c1 == spec_set_b_r(c0, 5, Register::L) && b1 == b0 && cycles == 2,
        0xF7 => c1 == spec_set_b_r(c0, 6, Register::A) && b1 == b0 && cycles == 2,
        0xF0 => c1 == spec_set_b_r(c0, 6, Register::B) && b1 == b0 && cycles == 2,
        0xF1 => c1 == spec_set_b_r(c0, 6, Register::C) && b1 == b0 && cycles == 2,
        0xF2 => c1 == spec_set_b_r(c0, 6, Register::D) && b1 == b0 && cycles == 2,
        0xF3 => c1 == spec_set_b_r(c0, 6, Register::E) && b1 == b0 && cycles == 2,
        0xF4 => c1 == spec_set_b_r(c0, 6, Register::H) && b1 == b0 && cycles == 2,
        0xF5 => c1 == spec_set_b_r(c0, 6, Register::L) && b1 == b0 && cycles == 2,
        0xFF => c1 == spec_set_b_r(c0, 7, Register::A) && b1 == b0 && cycles == 2,
        0xF8 => c1 == spec_set_b_r(c0, 7, Register::B) && b1 == b0 && cycles == 2,
        0xF9 => c1 == spec_set_b_r(c0, 7, Register::C) && b1 == b0 && cycles == 2,
        0xFA => c1 == spec_set_b_r(c0, 7, Register::D) && b1 == b0 && cycles == 2,
        0xFB => c1 == spec_set_b_r(c0, 7, Register::E) && b1 == b0 && cycles == 2,
        0xFC => c1 == spec_set_b_r(c0, 7, Register::H) && b1 == b0 && cycles == 2,
        0xFD => c1 == spec_set_b_r(c0, 7, Register::L) && b1 == b0 && cycles == 2,
        0xC6 => AddrSpace::write_rel(b0, word(c0.h, c0.l), b0.mem(word(c0.h, c0.l)) | (1u8 << 0u32), b1) && c1 == c0 && cycles == 4,
        0xCE => AddrSpace::write_rel(b0, word(c0.h, c0.l), b0.mem(word(c0.h, c0.l)) | (1u8 << 1u32), b1) && c1 == c0 && cycles == 4,
        0xD6 => AddrSpace::write_rel(b0, word(c0.h, c0.l), b0.mem(word(c0.h, c0.l)) | (1u8 << 2u32), b1) && c1 == c0 && cycles == 4,
        0xDE => AddrSpace::write_rel(b0, word(c0.h, c0.l), b0.mem(word(c0.h, c0.l)) | (1u8 << 3u32), b1) && c1 == c0 && cycles == 4,
        0xE6 => AddrSpace::write_rel(b0, word(c0.h, c0.l), b0.mem(word(c0.h, c0.l)) | (1u8 << 4u32), b1) && c1 == c0 && cycles == 4,
        0xEE => AddrSpace::write_rel(b0, word(c0.h, c0.l), b0.mem(word(c0.h, c0.l)) | (1u8 << 5u32), b1) && c1 == c0 && cycles == 4,
        0xF6 => AddrSpace::write_rel(b0, word(c0.h, c0.l), b0.mem(word(c0.h, c0.l)) | (1u8 << 6u32), b1) && c1 == c0 && cycles == 4,
        0xFE => AddrSpace::write_rel(b0, word(c0.h, c0.l), b0.mem(word(c0.h, c0.l)) | (1u8 << 7u32), b1) && c1 == c0 && cycles == 4,
        _ => false,
    }
}

/// Exactly what each opcode of the 0xCB-extended table does, opcode by
/// opcode, split along the table's four quarters.
pub open spec fn cb_instr_rel(op: u8, c0: CPU, b0: AddrSpace, c1: CPU, b1: AddrSpace, cycles: u8) -> bool {
    if op < 0x40 {
        cb_shift_rel(op, c0, b0, c1, b1, cycles)
    } else if op < 0x80 {
        cb_bit_rel(op, c0, b0, c1, b1, cycles)
    } else if op < 0xC0 {
        cb_res_rel(op, c0, b0, c1, b1, cycles)
    } else {
        cb_set_rel(op, c0, b0, c1, b1, cycles)
    }
}
/// Exactly what each base-table opcode does to the register file and
/// the bus, and what it costs in machine cycles, opcode by opcode.
pub open spec fn base_instr_rel(op: u8, c0: CPU, b0: AddrSpace, c1: CPU, b1: AddrSpace, cycles: u8) -> bool {
    match op {
        0x7F => c1 == spec_ld_r_r(c0, Register::A, Register::A) && b1 == b0 && cycles == 1,
        0x78 => c1 == spec_ld_r_r(c0, Register::A, Register::B) && b1 == b0 && cycles == 1,
        0x79 => c1 == spec_ld_r_r(c0, Register::A, Register::C) && b1 == b0 && cycles == 1,
        0x7A => c1 == spec_ld_r_r(c0, Register::A, Register::D) && b1 == b0 && cycles == 1,
        0x7B => c1 == spec_ld_r_r(c0, Register::A, Register::E) && b1 == b0 && cycles == 1,
        0x7C => c1 == spec_ld_r_r(c0, Register::A, Register::H) && b1 == b0 && cycles == 1,
        0x7D => c1 == spec_ld_r_r(c0, Register::A, Register::L) && b1 == b0 && cycles == 1,
        0x47 => c1 == spec_ld_r_r(c0, Register::B, Register::A) && b1 == b0 && cycles == 1,
        0x40 => c1 == spec_ld_r_r(c0, Register::B, Register::B) && b1 == b0 && cycles == 1,
        0x41 => c1 == spec_ld_r_r(c0, Register::B, Register::C) && b1 == b0 && cycles == 1,
        0x42 => c1 == spec_ld_r_r(c0, Register::B, Register::D) && b1 == b0 && cycles == 1,
        0x43 => c1 == spec_ld_r_r(c0, Register::B, Register::E) && b1 == b0 && cycles == 1,
        0x44 => c1 == spec_ld_r_r(c0, Register::B, Register::H) && b1 == b0 && cycles == 1,
        0x45 => c1 == spec_ld_r_r(c0, Register::B, Register::L) && b1 == b0 && cycles == 1,
        0x4F => c1 == spec_ld_r_r(c0, Register::C, Register::A) && b1 == b0 && cycles == 1,
        0x48 => c1 == spec_ld_r_r(c0, Register::C, Register::B) && b1 == b0 && cycles == 1,
        0x49 => c1 == spec_ld_r_r(c0, Register::C, Register::C) && b1 == b0 && cycles == 1,
        0x4A => c1 == spec_ld_r_r(c0, Register::C, Register::D) && b1 == b0 && cycles == 1,
        0x4B => c1 == spec_ld_r_r(c0, Register::C, Register::E) && b1 == b0 && cycles == 1,
        0x4C => c1 == spec_ld_r_r(c0, Register::C, Register::H) && b1 == b0 && cycles == 1,
        0x4D => c1 == spec_ld_r_r(c0, Register::C, Register::L) && b1 == b0 && cycles == 1,
        0x57 => c1 == spec_ld_r_r(c0, Register::D, Register::A) && b1 == b0 && cycles == 1,
        0x50 => c1 == spec_ld_r_r(c0, Register::D, Register::B) && b1 == b0 && cycles == 1,
        0x51 => c1 == spec_ld_r_r(c0, Register::D, Register::C) && b1 == b0 && cycles == 1,
        0x52 => c1 == spec_ld_r_r(c0, Register::D, Register::D) && b1 == b0 && cycles == 1,
        0x53 => c1 == spec_ld_r_r(c0, Register::D, Register::E) && b1 == b0 && cycles == 1,
        0x54 => c1 == spec_ld_r_r(c0, Register::D, Register::H) && b1 == b0 && cycles == 1,
        0x55 => c1 == spec_ld_r_r(c0, Register::D, Register::L) && b1 == b0 && cycles == 1,
        0x5F => c1 == spec_ld_r_r(c0, Register::E, Register::A) && b1 == b0 && cycles == 1,
        0x58 => c1 == spec_ld_r_r(c0, Register::E, Register::B) && b1 == b0 && cycles == 1,
        0x59 => c1 == spec_ld_r_r(c0, Register::E, Register::C) && b1 == b0 && cycles == 1,
        0x5A => c1 == spec_ld_r_r(c0, Register::E, Register::D) && b1 == b0 && cycles == 1,
        0x5B => c1 == spec_ld_r_r(c0, Register::E, Register::E) && b1 == b0 && cycles == 1,
        0x5C => c1 == spec_ld_r_r(c0, Register::E, Register::H) && b1 == b0 && cycles == 1,
        0x5D => c1 == spec_ld_r_r(c0, Register::E, Register::L) && b1 == b0 && cycles == 1,
        0x67 => c1 == spec_ld_r_r(c0, Register::H, Register::A) && b1 == b0 && cycles == 1,
        0x60 => c1 == spec_ld_r_r(c0, Register::H, Register::B) && b1 == b0 && cycles == 1,
        0x61 => c1 == spec_ld_r_r(c0, Register::H, Register::C) && b1 == b0 && cycles == 1,
        0x62 => c1 == spec_ld_r_r(c0, Register::H, Register::D) && b1 == b0 && cycles == 1,
        0x63 => c1 == spec_ld_r_r(c0, Register::H, Register::E) && b1 == b0 && cycles == 1,
        0x64 => c1 == spec_ld_r_r(c0, Register::H, Register::H) && b1 == b0 && cycles == 1,
        0x65 => c1 == spec_ld_r_r(c0, Register::H, Register::L) && b1 == b0 && cycles == 1,
        0x6F => c1 == spec_ld_r_r(c0, Register::L, Register::A) && b1 == b0 && cycles == 1,
        0x68 => c1 == spec_ld_r_r(c0, Register::L, Register::B) && b1 == b0 && cycles == 1,
        0x69 => c1 == spec_ld_r_r(c0, Register::L, Register::C) && b1 == b0 && cycles == 1,
        0x6A => c1 == spec_ld_r_r(c0, Register::L, Register::D) && b1 == b0 && cycles == 1,
        0x6B => c1 == spec_ld_r_r(c0, Register::L, Register::E) && b1 == b0 && cycles == 1,
        0x6C => c1 == spec_ld_r_r(c0, Register::L, Register::H) && b1 == b0 && cycles == 1,
        0x6D => c1 == spec_ld_r_r(c0, Register::L, Register::L) && b1 == b0 && cycles == 1,
        0x3E => c1 == spec_ld_r_n(c0, b0, Register::A) && b1 == b0 && cycles == 2,
        0x06 => c1 == spec_ld_r_n(c0, b0, Register::B) && b1 == b0 && cycles == 2,
        0x0E => c1 == spec_ld_r_n(c0, b0, Register::C) && b1 == b0 && cycles == 2,
        0x16 => c1 == spec_ld_r_n(c0, b0, Register::D) && b1 == b0 && cycles == 2,
        0x1E => c1 == spec_ld_r_n(c0, b0, Register::E) && b1 == b0 && cycles == 2,
        0x26 => c1 == spec_ld_r_n(c0, b0, Register::H) && b1 == b0 && cycles == 2,
        0x2E => c1 == spec_ld_r_n(c0, b0, Register::L) && b1 == b0 && cycles == 2,
        0x77 => AddrSpace::write_rel(b0, word(c0.h, c0.l), c0.spec_reg(Register::A), b1) && c1 == c0 && cycles == 2,
        0x70 => AddrSpace::write_rel(b0, word(c0.h, c0.l), c0.spec_reg(Register::B), b1) && c1 == c0 && cycles == 2,
        0x71 => AddrSpace::write_rel(b0, word(c0.h, c0.l), c0.spec_reg(Register::C), b1) && c1 == c0 && cycles == 2,
        0x72 => AddrSpace::write_rel(b0, word(c0.h, c0.l), c0.spec_reg(Register::D), b1) && c1 == c0 && cycles == 2,
        0x73 => AddrSpace::write_rel(b0, word(c0.h, c0.l), c0.spec_reg(Register::E), b1) && c1 == c0 && cycles == 2,
        0x74 => AddrSpace::write_rel(b0, word(c0.h, c0.l), c0.spec_reg(Register::H), b1) && c1 == c0 && cycles == 2,
        0x75 => AddrSpace::write_rel(b0, word(c0.h, c0.l), c0.spec_reg(Register::L), b1) && c1 == c0 && cycles == 2,
        0x7E => c1 == spec_ld_r_hl(c0, b0, Register::A) && b1 == b0 && cycles == 2,
        0x46 => c1 == spec_ld_r_hl(c0, b0, Register::B) && b1 == b0 && cycles == 2,
        0x4E => c1 == spec_ld_r_hl(c0, b0, Register::C) && b1 == b0 && cycles == 2,
        0x56 => c1 == spec_ld_r_hl(c0, b0, Register::D) && b1 == b0 && cycles == 2,
        0x5E => c1 == spec_ld_r_hl(c0, b0, Register::E) && b1 == b0 && cycles == 2,
        0x66 => c1 == spec_ld_r_hl(c0, b0, Register::H) && b1 == b0 && cycles == 2,
        0x6E => c1 == spec_ld_r_hl(c0, b0, Register::L) && b1 == b0 && cycles == 2,
        0x01 => c1 == fetched2(c0).spec_set_reg16(Register16::BC, imm16(c0, b0)) && b1 == b0 && cycles == 3,
        0x11 => c1 == fetched2(c0).spec_set_reg16(Register16::DE, imm16(c0, b0)) && b1 == b0 && cycles == 3,
        0x21 => c1 == fetched2(c0).spec_set_reg16(Register16::HL, imm16(c0, b0)) && b1 == b0 && cycles == 3,
        0x31 => c1 == fetched2(c0).spec_set_reg16(Register16::SP, imm16(c0, b0)) && b1 == b0 && cycles == 3,
        0xF5 => push_rel(Register::A, Register::F, c0, b0, c1, b1) && cycles == 4,
        0xC5 => push_rel(Register::B, Register::C, c0, b0, c1, b1) && cycles == 4,
        0xD5 => push_rel(Register::D, Register::E, c0, b0, c1, b1) && cycles == 4,
        0xE5 => push_rel(Register::H, Register::L, c0, b0, c1, b1) && cycles == 4,
        0xF1 => c1 == (CPU { sp: wrap_inc16_2(c0.sp), ..c0.spec_set_reg(Register::F, b0.mem(c0.sp)).spec_set_reg(Register::A, b0.mem(wrap_inc16(c0.sp))) }) && b1 == b0 && cycles == 3,
        0xC1 => c1 == (CPU { sp: wrap_inc16_2(c0.sp), ..c0.spec_set_reg(Register::C, b0.mem(c0.sp)).spec_set_reg(Register::B, b0.mem(wrap_inc16(c0.sp))) }) && b1 == b0 && cycles == 3,
        0xD1 => c1 == (CPU { sp: wrap_inc16_2(c0.sp), ..c0.spec_set_reg(Register::E, b0.mem(c0.sp)).spec_set_reg(Register::D, b0.mem(wrap_inc16(c0.sp))) }) && b1 == b0 && cycles == 3,
        0xE1 => c1 == (CPU { sp: wrap_inc16_2(c0.sp), ..c0.spec_set_reg(Register::L, b0.mem(c0.sp)).spec_set_reg(Register::H, b0.mem(wrap_inc16(c0.sp))) }) && b1 == b0 && cycles == 3,
        0x36 => AddrSpace::write_rel(b0, word(c0.h, c0.l), b0.mem(c0.pc), b1) && c1 == fetched(c0) && cycles == 3,
        0x0A => c1 == (CPU { a: b0.mem(word(c0.b, c0.c)), ..c0 }) && b1 == b0 && cycles == 2,
        0x1A => c1 == (CPU { a: b0.mem(word(c0.d, c0.e)), ..c0 }) && b1 == b0 && cycles == 2,
        0x02 => AddrSpace::write_rel(b0, word(c0.b, c0.c), c0.a, b1) && c1 == c0 && cycles == 2,
        0x12 => AddrSpace::write_rel(b0, word(c0.d, c0.e), c0.a, b1) && c1 == c0 && cycles == 2,
        0xFA => c1 == (CPU { a: b0.mem(imm16(c0, b0)), ..fetched2(c0) }) && b1 == b0 && cycles == 4,
        0xEA => AddrSpace::write_rel(b0, imm16(c0, b0), c0.a, b1) && c1 == fetched2(c0) && cycles == 4,
        0xF2 => c1 == (CPU { a: b0.mem(high_page(c0.c)), ..c0 }) && b1 == b0 && cycles == 2,
        0xE2 => AddrSpace::write_rel(b0, high_page(c0.c), c0.a, b1) && c1 == c0 && cycles == 2,
        0xF0 => c1 == (CPU { a: b0.mem(high_page(b0.mem(c0.pc))), ..fetched(c0) }) && b1 == b0 && cycles == 3,
        0xE0 => AddrSpace::write_rel(b0, high_page(b0.mem(c0.pc)), c0.a, b1) && c1 == fetched(c0) && cycles == 3,
        0x3A => c1 == with_hl((CPU { a: b0.mem(word(c0.h, c0.l)), ..c0 }), wrap_dec16(word(c0.h, c0.l))) && b1 == b0 && cycles == 2,
        0x32 => AddrSpace::write_rel(b0, word(c0.h, c0.l), c0.a, b1) && c1 == with_hl(c0, wrap_dec16(word(c0.h, c0.l))) && cycles == 2,
        0x2A => c1 == with_hl((CPU { a: b0.mem(word(c0.h, c0.l)), ..c0 }), wrap_inc16(word(c0.h, c0.l))) && b1 == b0 && cycles == 2,
        0x22 => AddrSpace::write_rel(b0, word(c0.h, c0.l), c0.a, b1) && c1 == with_hl(c0, wrap_inc16(word(c0.h, c0.l))) && cycles == 2,
        0x08 => (exists|bm: AddrSpace| AddrSpace::write_rel(b0, imm16(c0, b0), low8(c0.sp), bm) && AddrSpace::write_rel(bm, wrap_inc16(imm16(c0, b0)), high8(c0.sp), b1)) && c1 == fetched2(c0) && cycles == 5,
        0xF8 => c1 == spec_ldhl_sp(fetched(c0), as_signed8(b0.mem(c0.pc))) && b1 == b0 && cycles == 3,
        0xF9 => c1 == (CPU { sp: word(c0.h, c0.l), ..c0 }) && b1 == b0 && cycles == 2,
        0x87 => c1 == spec_add_a(c0, c0.a) && b1 == b0 && cycles == 1,
        0x80 => c1 == spec_add_a(c0, c0.b) && b1 == b0 && cycles == 1,
        0x81 => c1 == spec_add_a(c0, c0.c) && b1 == b0 && cycles == 1,
        0x82 => c1 == spec_add_a(c0, c0.d) && b1 == b0 && cycles == 1,
        0x83 => c1 == spec_add_a(c0, c0.e) && b1 == b0 && cycles == 1,
        0x84 => c1 == spec_add_a(c0, c0.h) && b1 == b0 && cycles == 1,
        0x85 => c1 == spec_add_a(c0, c0.l) && b1 == b0 && cycles == 1,
        0x86 => c1 == spec_add_a(c0, b0.mem(word(c0.h, c0.l))) && b1 == b0 && cycles == 2,
        0xC6 => c1 == spec_add_a(fetched(c0), b0.mem(c0.pc)) && b1 == b0 && cycles == 2,
        0x8F => c1 == spec_adc_a(c0, c0.a) && b1 == b0 && cycles == 1,
        0x88 => c1 == spec_adc_a(c0, c0.b) && b1 == b0 && cycles == 1,
        0x89 => c1 == spec_adc_a(c0, c0.c) && b1 == b0 && cycles == 1,
        0x8A => c1 == spec_adc_a(c0, c0.d) && b1 == b0 && cycles == 1,
        0x8B => c1 == spec_adc_a(c0, c0.e) && b1 == b0 && cycles == 1,
        0x8C => c1 == spec_adc_a(c0, c0.h) && b1 == b0 && cycles == 1,
        0x8D => c1 == spec_adc_a(c0, c0.l) && b1 == b0 && cycles == 1,
        0x8E => c1 == spec_adc_a(c0, b0.mem(word(c0.h, c0.l))) && b1 == b0 && cycles == 2,
        0xCE => c1 == spec_adc_a(fetched(c0), b0.mem(c0.pc)) && b1 == b0 && cycles == 2,
        0x97 => c1 == spec_sub_a(c0, c0.a) && b1 == b0 && cycles == 1,
        0x90 => c1 == spec_sub_a(c0, c0.b) && b1 == b0 && cycles == 1,
        0x91 => c1 == spec_sub_a(c0, c0.c) && b1 == b0 && cycles == 1,
        0x92 => c1 == spec_sub_a(c0, c0.d) && b1 == b0 && cycles == 1,
        0x93 => c1 == spec_sub_a(c0, c0.e) && b1 == b0 && cycles == 1,
        0x94 => c1 == spec_sub_a(c0, c0.h) && b1 == b0 && cycles == 1,
        0x95 => c1 == spec_sub_a(c0, c0.l) && b1 == b0 && cycles == 1,
        0x96 => c1 == spec_sub_a(c0, b0.mem(word(c0.h, c0.l))) && b1 == b0 && cycles == 2,
        0xD6 => c1 == spec_sub_a(fetched(c0), b0.mem(c0.pc)) && b1 == b0 && cycles == 2,
        0x9F => c1 == spec_sbc_a(c0, c0.a) && b1 == b0 && cycles == 1,
        0x98 => c1 == spec_sbc_a(c0, c0.b) && b1 == b0 && cycles == 1,
        0x99 => c1 == spec_sbc_a(c0, c0.c) && b1 == b0 && cycles == 1,
        0x9A => c1 == spec_sbc_a(c0, c0.d) && b1 == b0 && cycles == 1,
        0x9B => c1 == spec_sbc_a(c0, c0.e) && b1 == b0 && cycles == 1,
        0x9C => c1 == spec_sbc_a(c0, c0.h) && b1 == b0 && cycles == 1,
        0x9D => c1 == spec_sbc_a(c0, c0.l) && b1 == b0 && cycles == 1,
        0x9E => c1 == spec_sbc_a(c0, b0.mem(word(c0.h, c0.l))) && b1 == b0 && cycles == 2,
        0xDE => c1 == spec_sbc_a(fetched(c0), b0.mem(c0.pc)) && b1 == b0 && cycles == 2,
        0xA7 => c1 == spec_and_a(c0, c0.a) && b1 == b0 && cycles == 1,
        0xA0 => c1 == spec_and_a(c0, c0.b) && b1 == b0 && cycles == 1,
        0xA1 => c1 == spec_and_a(c0, c0.c) && b1 == b0 && cycles == 1,
        0xA2 => c1 == spec_and_a(c0, c0.d) && b1 == b0 && cycles == 1,
        0xA3 => c1 == spec_and_a(c0, c0.e) && b1 == b0 && cycles == 1,
        0xA4 => c1 == spec_and_a(c0, c0.h) && b1 == b0 && cycles == 1,
        0xA5 => c1 == spec_and_a(c0, c0.l) && b1 == b0 && cycles == 1,
        0xA6 => c1 == spec_and_a(c0, b0.mem(word(c0.h, c0.l))) && b1 == b0 && cycles == 2,
        0xE6 => c1 == spec_and_a(fetched(c0), b0.mem(c0.pc)) && b1 == b0 && cycles == 2,
        0xB7 => c1 == spec_or_a(c0, c0.a) && b1 == b0 && cycles == 1,
        0xB0 => c1 == spec_or_a(c0, c0.b) && b1 == b0 && cycles == 1,
        0xB1 => c1 == spec_or_a(c0, c0.c) && b1 == b0 && cycles == 1,
        0xB2 => c1 == spec_or_a(c0, c0.d) && b1 == b0 && cycles == 1,
        0xB3 => c1 == spec_or_a(c0, c0.e) && b1 == b0 && cycles == 1,
        0xB4 => c1 == spec_or_a(c0, c0.h) && b1 == b0 && cycles == 1,
        0xB5 => c1 == spec_or_a(c0, c0.l) && b1 == b0 && cycles == 1,
        0xB6 => c1 == spec_or_a(c0, b0.mem(word(c0.h, c0.l))) && b1 == b0 && cycles == 2,
        0xF6 => c1 == spec_or_a(fetched(c0), b0.mem(c0.pc)) && b1 == b0 && cycles == 2,
        0xAF => c1 == spec_xor_a(c0, c0.a) && b1 == b0 && cycles == 1,
        0xA8 => c1 == spec_xor_a(c0, c0.b) && b1 == b0 && cycles == 1,
        0xA9 => c1 == spec_xor_a(c0, c0.c) && b1 == b0 && cycles == 1,
        0xAA => c1 == spec_xor_a(c0, c0.d) && b1 == b0 && cycles == 1,
        0xAB => c1 == spec_xor_a(c0, c0.e) && b1 == b0 && cycles == 1,
        0xAC => c1 == spec_xor_a(c0, c0.h) && b1 == b0 && cycles == 1,
        0xAD => c1 == spec_xor_a(c0, c0.l) && b1 == b0 && cycles == 1,
        0xAE => c1 == spec_xor_a(c0, b0.mem(word(c0.h, c0.l))) && b1 == b0 && cycles == 2,
        0xEE => c1 == spec_xor_a(fetched(c0), b0.mem(c0.pc)) && b1 == b0 && cycles == 2,
        0xBF => c1 == spec_cp_a(c0, c0.a) && b1 == b0 && cycles == 1,
        0xB8 => c1 == spec_cp_a(c0, c0.b) && b1 == b0 && cycles == 1,
        0xB9 => c1 == spec_cp_a(c0, c0.c) && b1 == b0 && cycles == 1,
        0xBA => c1 == spec_cp_a(c0, c0.d) && b1 == b0 && cycles == 1,
        0xBB => c1 == spec_cp_a(c0, c0.e) && b1 == b0 && cycles == 1,
        0xBC => c1 == spec_cp_a(c0, c0.h) && b1 == b0 && cycles == 1,
        0xBD => c1 == spec_cp_a(c0, c0.l) && b1 == b0 && cycles == 1,
        0xBE => c1 == spec_cp_a(c0, b0.mem(word(c0.h, c0.l))) && b1 == b0 && cycles == 2,
        0xFE => c1 == spec_cp_a(fetched(c0), b0.mem(c0.pc)) && b1 == b0 && cycles == 2,
        0x3C => c1 == spec_inc_r(c0, Register::A) && b1 == b0 && cycles == 1,
        0x04 => c1 == spec_inc_r(c0, Register::B) && b1 == b0 && cycles == 1,
        0x0C => c1 == spec_inc_r(c0, Register::C) && b1 == b0 && cycles == 1,
        0x14 => c1 == spec_inc_r(c0, Register::D) && b1 == b0 && cycles == 1,
        0x1C => c1 == spec_inc_r(c0, Register::E) && b1 == b0 && cycles == 1,
        0x24 => c1 == spec_inc_r(c0, Register::H) && b1 == b0 && cycles == 1,
        0x2C => c1 == spec_inc_r(c0, Register::L) && b1 == b0 && cycles == 1,
        0x34 => AddrSpace::write_rel(b0, word(c0.h, c0.l), ((b0.mem(word(c0.h, c0.l)) + 1) % 256) as u8, b1) && c1 == (CPU { f: inc_flags(c0, ((b0.mem(word(c0.h, c0.l)) + 1) % 256) as u8), ..c0 }) && cycles == 3,
        0x3D => c1 == spec_dec_r(c0, Register::A) && b1 == b0 && cycles == 1,
        0x05 => c1 == spec_dec_r(c0, Register::B) && b1 == b0 && cycles == 1,
        0x0D => c1 == spec_dec_r(c0, Register::C) && b1 == b0 && cycles == 1,
        0x15 => c1 == spec_dec_r(c0, Register::D) && b1 == b0 && cycles == 1,
        0x1D => c1 == spec_dec_r(c0, Register::E) && b1 == b0 && cycles == 1,
        0x25 => c1 == spec_dec_r(c0, Register::H) && b1 == b0 && cycles == 1,
        0x2D => c1 == spec_dec_r(c0, Register::L) && b1 == b0 && cycles == 1,
        0x35 => AddrSpace::write_rel(b0, word(c0.h, c0.l), (((b0.mem(word(c0.h, c0.l)) - 1) + 256) % 256) as u8, b1) && c1 == (CPU { f: dec_flags(c0, (((b0.mem(word(c0.h, c0.l)) - 1) + 256) % 256) as u8), ..c0 }) && cycles == 3,
        0x09 => c1 == spec_add_hl(c0, word(c0.b, c0.c)) && b1 == b0 && cycles == 2,
        0x19 => c1 == spec_add_hl(c0, word(c0.d, c0.e)) && b1 == b0 && cycles == 2,
        0x29 => c1 == spec_add_hl(c0, word(c0.h, c0.l)) && b1 == b0 && cycles == 2,
        0x39 => c1 == spec_add_hl(c0, c0.sp) && b1 == b0 && cycles == 2,
        0xE8 => c1 == spec_add_sp(fetched(c0), as_signed8(b0.mem(c0.pc))) && b1 == b0 && cycles == 4,
        0x03 => c1 == spec_inc_rr(c0, Register16::BC) && b1 == b0 && cycles == 2,
        0x13 => c1 == spec_inc_rr(c0, Register16::DE) && b1 == b0 && cycles == 2,
        0x23 => c1 == spec_inc_rr(c0, Register16::HL) && b1 == b0 && cycles == 2,
        0x33 => c1 == spec_inc_rr(c0, Register16::SP) && b1 == b0 && cycles == 2,
        0x0B => c1 == spec_dec_rr(c0, Register16::BC) && b1 == b0 && cycles == 2,
        0x1B => c1 == spec_dec_rr(c0, Register16::DE) && b1 == b0 && cycles == 2,
        0x2B => c1 == spec_dec_rr(c0, Register16::HL) && b1 == b0 && cycles == 2,
        0x3B => c1 == spec_dec_rr(c0, Register16::SP) && b1 == b0 && cycles == 2,
        0xC3 => c1 == (CPU { pc: imm16(c0, b0), ..c0 }) && b1 == b0 && cycles == 4,
        0x18 => c1 == (CPU { pc: wrap_add_signed16(wrap_inc16(c0.pc), as_signed8(b0.mem(c0.pc))), ..c0 }) && b1 == b0 && cycles == 3,
        0xE9 => c1 == (CPU { pc: word(c0.h, c0.l), ..c0 }) && b1 == b0 && cycles == 1,
        0x20 => jr_rel(!zero_of(c0.f), c0, b0, c1, b1, cycles),
        0x28 => jr_rel(zero_of(c0.f), c0, b0, c1, b1, cycles),
        0x30 => jr_rel(!carry_of(c0.f), c0, b0, c1, b1, cycles),
        0x38 => jr_rel(carry_of(c0.f), c0, b0, c1, b1, cycles),
        0xC2 => jp_cc_rel(!zero_of(c0.f), c0, b0, c1, b1, cycles),
        0xCA => jp_cc_rel(zero_of(c0.f), c0, b0, c1, b1, cycles),
        0xD2 => jp_cc_rel(!carry_of(c0.f), c0, b0, c1, b1, cycles),
        0xDA => jp_cc_rel(carry_of(c0.f), c0, b0, c1, b1, cycles),
        0xCD => call_rel(true, c0, b0, c1, b1, cycles),
        0xC4 => call_rel(!zero_of(c0.f), c0, b0, c1, b1, cycles),
        0xCC => call_rel(zero_of(c0.f), c0, b0, c1, b1, cycles),
        0xD4 => call_rel(!carry_of(c0.f), c0, b0, c1, b1, cycles),
        0xDC => call_rel(carry_of(c0.f), c0, b0, c1, b1, cycles),
        0xC9 => ret_rel(true, c0, b0, c1, b1, cycles),
        0xC0 => ret_rel(!zero_of(c0.f), c0, b0, c1, b1, cycles),
        0xC8 => ret_rel(zero_of(c0.f), c0, b0, c1, b1, cycles),
        0xD0 => ret_rel(!carry_of(c0.f), c0, b0, c1, b1, cycles),
        0xD8 => ret_rel(carry_of(c0.f), c0, b0, c1, b1, cycles),
        0xD9 => c1 == (CPU { pc: word(b0.mem(wrap_inc16(c0.sp)), b0.mem(c0.sp)), sp: wrap_inc16_2(c0.sp), schedule_ime: true, ..c0 }) && b1 == b0 && cycles == 2,
        0xFB => c1 == (CPU { schedule_ime: true, ..c0 }) && b1 == b0 && cycles == 2,
        0xF3 => c1 == (CPU { ime: false, ..c0 }) && b1 == b0 && cycles == 1,
        0x2F => c1 == spec_cpl(c0) && b1 == b0 && cycles == 1,
        0xC7 => rst_rel(0x00, c0, b0, c1, b1) && cycles == 8,
        0xCF => rst_rel(0x08, c0, b0, c1, b1) && cycles == 8,
        0xD7 => rst_rel(0x10, c0, b0, c1, b1) && cycles == 8,
        0xDF => rst_rel(0x18, c0, b0, c1, b1) && cycles == 8,
        0xE7 => rst_rel(0x20, c0, b0, c1, b1) && cycles == 8,
        0xEF => rst_rel(0x28, c0, b0, c1, b1) && cycles == 8,
        0xF7 => rst_rel(0x30, c0, b0, c1, b1) && cycles == 8,
        0xFF => rst_rel(0x38, c0, b0, c1, b1) && cycles == 8,
        0x37 => c1 == spec_scf(c0) && b1 == b0 && cycles == 1,
        0x3F => c1 == spec_ccf(c0) && b1 == b0 && cycles == 1,
        0x17 => c1 == spec_rla(c0) && b1 == b0 && cycles == 2,
        0x1F => c1 == spec_rra(c0) && b1 == b0 && cycles == 2,
        0x07 => c1 == spec_rlca(c0) && b1 == b0 && cycles == 2,
        0x0F => c1 == spec_rrca(c0) && b1 == b0 && cycles == 2,
        0x27 => c1 == spec_daa(c0) && b1 == b0 && cycles == 1,
        0x00 => c1 == c0 && b1 == b0 && cycles == 1,
        0x10 => c1 == c0 && b1 == b0 && cycles == 1,
        0x76 => c1 == c0 && b1 == b0 && cycles == 1,
        0xD3 | 0xE3 | 0xE4 | 0xF4 | 0xDB | 0xDD | 0xEB | 0xEC | 0xED | 0xFC | 0xFD => c1 == c0 && b1 == b0 && cycles == 1,
        0xCB => cb_instr_rel(b0.mem(c0.pc), fetched(c0), b0, c1, b1, cycles),
    }
}

/// Dispatches one base-table opcode, mutating the register file and the
/// bus exactly as `base_instr_rel` states, and returns the elapsed
/// machine cycles.
pub fn exec_instruction(opcode: u8, cpu: &mut CPU, addr_space: &mut AddrSpace) -> (cycles: u8)
    ensures
        base_instr_rel(opcode, *old(cpu), *old(addr_space), *final(cpu), *final(addr_space), cycles),
        old(cpu).wf() ==> final(cpu).wf(),
        final(addr_space).cart_ok() == old(addr_space).cart_ok(),
{
    match opcode {
        0x7F => ld_r_r(Register::A, Register::A, cpu),
        0x78 => ld_r_r(Register::A, Register::B, cpu),
        0x79 => ld_r_r(Register::A, Register::C, cpu),
        0x7A => ld_r_r(Register::A, Register::D, cpu),
        0x7B => ld_r_r(Register::A, Register::E, cpu),
        0x7C => ld_r_r(Register::A, Register::H, cpu),
        0x7D => ld_r_r(Register::A, Register::L, cpu),
        0x47 => ld_r_r(Register::B, Register::A, cpu),
        0x40 => ld_r_r(Register::B, Register::B, cpu),
        0x41 => ld_r_r(Register::B, Register::C, cpu),
        0x42 => ld_r_r(Register::B, Register::D, cpu),
        0x43 => ld_r_r(Register::B, Register::E, cpu),
        0x44 => ld_r_r(Register::B, Register::H, cpu),
        0x45 => ld_r_r(Register::B, Register::L, cpu),
        0x4F => ld_r_r(Register::C, Register::A, cpu),
        0x48 => ld_r_r(Register::C, Register::B, cpu),
        0x49 => ld_r_r(Register::C, Register::C, cpu),
        0x4A => ld_r_r(Register::C, Register::D, cpu),
        0x4B => ld_r_r(Register::C, Register::E, cpu),
        0x4C => ld_r_r(Register::C, Register::H, cpu),
        0x4D => ld_r_r(Register::C, Register::L, cpu),
        0x57 => ld_r_r(Register::D, Register::A, cpu),
        0x50 => ld_r_r(Register::D, Register::B, cpu),
        0x51 => ld_r_r(Register::D, Register::C, cpu),
        0x52 => ld_r_r(Register::D, Register::D, cpu),
        0x53 => ld_r_r(Register::D, Register::E, cpu),
        0x54 => ld_r_r(Register::D, Register::H, cpu),
        0x55 => ld_r_r(Register::D, Register::L, cpu),
        0x5F => ld_r_r(Register::E, Register::A, cpu),
        0x58 => ld_r_r(Register::E, Register::B, cpu),
        0x59 => ld_r_r(Register::E, Register::C, cpu),
        0x5A => ld_r_r(Register::E, Register::D, cpu),
        0x5B => ld_r_r(Register::E, Register::E, cpu),
        0x5C => ld_r_r(Register::E, Register::H, cpu),
        0x5D => ld_r_r(Register::E, Register::L, cpu),
        0x67 => ld_r_r(Register::H, Register::A, cpu),
        0x60 => ld_r_r(Register::H, Register::B, cpu),
        0x61 => ld_r_r(Register::H, Register::C, cpu),
        0x62 => ld_r_r(Register::H, Register::D, cpu),
        0x63 => ld_r_r(Register::H, Register::E, cpu),
        0x64 => ld_r_r(Register::H, Register::H, cpu),
        0x65 => ld_r_r(Register::H, Register::L, cpu),
        0x6F => ld_r_r(Register::L, Register::A, cpu),
        0x68 => ld_r_r(Register::L, Register::B, cpu),
        0x69 => ld_r_r(Register::L, Register::C, cpu),
        0x6A => ld_r_r(Register::L, Register::D, cpu),
        0x6B => ld_r_r(Register::L, Register::E, cpu),
        0x6C => ld_r_r(Register::L, Register::H, cpu),
        0x6D => ld_r_r(Register::L, Register::L, cpu),
        0x3E => ld_r_n(Register::A, cpu, addr_space),
        0x06 => ld_r_n(Register::B, cpu, addr_space),
        0x0E => ld_r_n(Register::C, cpu, addr_space),
        0x16 => ld_r_n(Register::D, cpu, addr_space),
        0x1E => ld_r_n(Register::E, cpu, addr_space),
        0x26 => ld_r_n(Register::H, cpu, addr_space),
        0x2E => ld_r_n(Register::L, cpu, addr_space),
        0x77 => ld_hl_r(Register::A, cpu, addr_space),
        0x70 => ld_hl_r(Register::B, cpu, addr_space),
        0x71 => ld_hl_r(Register::C, cpu, addr_space),
        0x72 => ld_hl_r(Register::D, cpu, addr_space),
        0x73 => ld_hl_r(Register::E, cpu, addr_space),
        0x74 => ld_hl_r(Register::H, cpu, addr_space),
        0x75 => ld_hl_r(Register::L, cpu, addr_space),
        0x7E => ld_r_hl(Register::A, cpu, addr_space),
        0x46 => ld_r_hl(Register::B, cpu, addr_space),
        0x4E => ld_r_hl(Register::C, cpu, addr_space),
        0x56 => ld_r_hl(Register::D, cpu, addr_space),
        0x5E => ld_r_hl(Register::E, cpu, addr_space),
        0x66 => ld_r_hl(Register::H, cpu, addr_space),
        0x6E => ld_r_hl(Register::L, cpu, addr_space),
        0x01 => ld_rr_nn(Register16::BC, cpu, addr_space),
        0x11 => ld_rr_nn(Register16::DE, cpu, addr_space),
        0x21 => ld_rr_nn(Register16::HL, cpu, addr_space),
        0x31 => ld_rr_nn(Register16::SP, cpu, addr_space),
        0xF5 => push_rr(Register::A, Register::F, cpu, addr_space),
        0xC5 => push_rr(Register::B, Register::C, cpu, addr_space),
        0xD5 => push_rr(Register::D, Register::E, cpu, addr_space),
        0xE5 => push_rr(Register::H, Register::L, cpu, addr_space),
        0xF1 => pop_rr(Register::A, Register::F, cpu, addr_space),
        0xC1 => pop_rr(Register::B, Register::C, cpu, addr_space),
        0xD1 => pop_rr(Register::D, Register::E, cpu, addr_space),
        0xE1 => pop_rr(Register::H, Register::L, cpu, addr_space),
        0x36 => ld_hl_n(cpu, addr_space),
        0x0A => ld_a_bc(cpu, addr_space),
        0x1A => ld_a_de(cpu, addr_space),
        0x02 => ld_bc_a(cpu, addr_space),
        0x12 => ld_de_a(cpu, addr_space),
        0xFA => ld_a_nn(cpu, addr_space),
        0xEA => ld_nn_a(cpu, addr_space),
        0xF2 => ldh_a_c(cpu, addr_space),
        0xE2 => ldh_c_a(cpu, addr_space),
        0xF0 => ldh_a_n(cpu, addr_space),
        0xE0 => ldh_n_a(cpu, addr_space),
        0x3A => ld_a_hl_dec(cpu, addr_space),
        0x32 => ld_hl_dec_a(cpu, addr_space),
        0x2A => ld_a_hl_inc(cpu, addr_space),
        0x22 => ld_hl_inc_a(cpu, addr_space),
        0x08 => ld_nn_sp(cpu, addr_space),
        0xF8 => ldhl_sp_n(cpu, addr_space),
        0xF9 => ld_sp_hl(cpu),
        0x87 => add_a_n(cpu.a, cpu),
        0x80 => add_a_n(cpu.b, cpu),
        0x81 => add_a_n(cpu.c, cpu),
        0x82 => add_a_n(cpu.d, cpu),
        0x83 => add_a_n(cpu.e, cpu),
        0x84 => add_a_n(cpu.h, cpu),
        0x85 => add_a_n(cpu.l, cpu),
        0x86 => add_a_hl(cpu, addr_space),
        0xC6 => add_a_imm(cpu, addr_space),
        0x8F => adc_a_n(cpu.a, cpu),
        0x88 => adc_a_n(cpu.b, cpu),
        0x89 => adc_a_n(cpu.c, cpu),
        0x8A => adc_a_n(cpu.d, cpu),
        0x8B => adc_a_n(cpu.e, cpu),
        0x8C => adc_a_n(cpu.h, cpu),
        0x8D => adc_a_n(cpu.l, cpu),
        0x8E => adc_a_hl(cpu, addr_space),
        0xCE => adc_a_imm(cpu, addr_space),
        0x97 => sub_a_n(cpu.a, cpu),
        0x90 => sub_a_n(cpu.b, cpu),
        0x91 => sub_a_n(cpu.c, cpu),
        0x92 => sub_a_n(cpu.d, cpu),
        0x93 => sub_a_n(cpu.e, cpu),
        0x94 => sub_a_n(cpu.h, cpu),
        0x95 => sub_a_n(cpu.l, cpu),
        0x96 => sub_a_hl(cpu, addr_space),
        0xD6 => sub_a_imm(cpu, addr_space),
        0x9F => sbc_a_n(cpu.a, cpu),
        0x98 => sbc_a_n(cpu.b, cpu),
        0x99 => sbc_a_n(cpu.c, cpu),
        0x9A => sbc_a_n(cpu.d, cpu),
        0x9B => sbc_a_n(cpu.e, cpu),
        0x9C => sbc_a_n(cpu.h, cpu),
        0x9D => sbc_a_n(cpu.l, cpu),
        0x9E => sbc_a_hl(cpu, addr_space),
        0xDE => sbc_a_imm(cpu, addr_space),
        0xA7 => and_a_n(cpu.a, cpu),
        0xA0 => and_a_n(cpu.b, cpu),
        0xA1 => and_a_n(cpu.c, cpu),
        0xA2 => and_a_n(cpu.d, cpu),
        0xA3 => and_a_n(cpu.e, cpu),
        0xA4 => and_a_n(cpu.h, cpu),
        0xA5 => and_a_n(cpu.l, cpu),
        0xA6 => and_a_hl(cpu, addr_space),
        0xE6 => and_a_imm(cpu, addr_space),
        0xB7 => or_a_n(cpu.a, cpu),
        0xB0 => or_a_n(cpu.b, cpu),
        0xB1 => or_a_n(cpu.c, cpu),
        0xB2 => or_a_n(cpu.d, cpu),
        0xB3 => or_a_n(cpu.e, cpu),
        0xB4 => or_a_n(cpu.h, cpu),
        0xB5 => or_a_n(cpu.l, cpu),
        0xB6 => or_a_hl(cpu, addr_space),
        0xF6 => or_a_imm(cpu, addr_space),
        0xAF => xor_a_n(cpu.a, cpu),
        0xA8 => xor_a_n(cpu.b, cpu),
        0xA9 => xor_a_n(cpu.c, cpu),
        0xAA => xor_a_n(cpu.d, cpu),
        0xAB => xor_a_n(cpu.e, cpu),
        0xAC => xor_a_n(cpu.h, cpu),
        0xAD => xor_a_n(cpu.l, cpu),
        0xAE => xor_a_hl(cpu, addr_space),
        0xEE => xor_a_imm(cpu, addr_space),
        0xBF => cp_a_n(cpu.a, cpu),
        0xB8 => cp_a_n(cpu.b, cpu),
        0xB9 => cp_a_n(cpu.c, cpu),
        0xBA => cp_a_n(cpu.d, cpu),
        0xBB => cp_a_n(cpu.e, cpu),
        0xBC => cp_a_n(cpu.h, cpu),
        0xBD => cp_a_n(cpu.l, cpu),
        0xBE => cp_a_hl(cpu, addr_space),
        0xFE => cp_a_imm(cpu, addr_space),
        0x3C => inc_r(Register::A, cpu),
        0x04 => inc_r(Register::B, cpu),
        0x0C => inc_r(Register::C, cpu),
        0x14 => inc_r(Register::D, cpu),
        0x1C => inc_r(Register::E, cpu),
        0x24 => inc_r(Register::H, cpu),
        0x2C => inc_r(Register::L, cpu),
        0x34 => inc_hl(cpu, addr_space),
        0x3D => dec_r(Register::A, cpu),
        0x05 => dec_r(Register::B, cpu),
        0x0D => dec_r(Register::C, cpu),
        0x15 => dec_r(Register::D, cpu),
        0x1D => dec_r(Register::E, cpu),
        0x25 => dec_r(Register::H, cpu),
        0x2D => dec_r(Register::L, cpu),
        0x35 => dec_hl(cpu, addr_space),
        0x09 => add_hl_nn(cpu.bc(), cpu),
        0x19 => add_hl_nn(cpu.de(), cpu),
        0x29 => add_hl_nn(cpu.hl(), cpu),
        0x39 => add_hl_nn(cpu.sp, cpu),
        0xE8 => add_sp_imm(cpu, addr_space),
        0x03 => inc_rr(Register16::BC, cpu),
        0x13 => inc_rr(Register16::DE, cpu),
        0x23 => inc_rr(Register16::HL, cpu),
        0x33 => inc_rr(Register16::SP, cpu),
        0x0B => dec_rr(Register16::BC, cpu),
        0x1B => dec_rr(Register16::DE, cpu),
        0x2B => dec_rr(Register16::HL, cpu),
        0x3B => dec_rr(Register16::SP, cpu),
        0xC3 => jp_nn(cpu, addr_space),
        0x18 => jr_e(cpu, addr_space),
        0xE9 => jp_hl(cpu),
        0x20 => jr_cc_e(!cpu.zero_flag(), cpu, addr_space),
        0x28 => jr_cc_e(cpu.zero_flag(), cpu, addr_space),
        0x30 => jr_cc_e(!cpu.carry_flag(), cpu, addr_space),
        0x38 => jr_cc_e(cpu.carry_flag(), cpu, addr_space),
        0xC2 => jp_cc_nn(!cpu.zero_flag(), cpu, addr_space),
        0xCA => jp_cc_nn(cpu.zero_flag(), cpu, addr_space),
        0xD2 => jp_cc_nn(!cpu.carry_flag(), cpu, addr_space),
        0xDA => jp_cc_nn(cpu.carry_flag(), cpu, addr_space),
        0xCD => call_cc_nn(true, cpu, addr_space),
        0xC4 => call_cc_nn(!cpu.zero_flag(), cpu, addr_space),
        0xCC => call_cc_nn(cpu.zero_flag(), cpu, addr_space),
        0xD4 => call_cc_nn(!cpu.carry_flag(), cpu, addr_space),
        0xDC => call_cc_nn(cpu.carry_flag(), cpu, addr_space),
        0xC9 => ret_cc(true, cpu, addr_space),
        0xC0 => ret_cc(!cpu.zero_flag(), cpu, addr_space),
        0xC8 => ret_cc(cpu.zero_flag(), cpu, addr_space),
        0xD0 => ret_cc(!cpu.carry_flag(), cpu, addr_space),
        0xD8 => ret_cc(cpu.carry_flag(), cpu, addr_space),
        0xD9 => reti(cpu, addr_space),
        0xFB => ei(cpu),
        0xF3 => di(cpu),
        0x2F => cpl(cpu),
        0xC7 => rst_n(0x00, cpu, addr_space),
        0xCF => rst_n(0x08, cpu, addr_space),
        0xD7 => rst_n(0x10, cpu, addr_space),
        0xDF => rst_n(0x18, cpu, addr_space),
        0xE7 => rst_n(0x20, cpu, addr_space),
        0xEF => rst_n(0x28, cpu, addr_space),
        0xF7 => rst_n(0x30, cpu, addr_space),
        0xFF => rst_n(0x38, cpu, addr_space),
        0x37 => scf(cpu),
        0x3F => ccf(cpu),
        0x17 => rla(cpu),
        0x1F => rra(cpu),
        0x07 => rlca(cpu),
        0x0F => rrca(cpu),
        0x27 => daa(cpu),
        0x00 => 1,
        0x10 => stop(),
        0x76 => halt(),
        0xD3 | 0xE3 | 0xE4 | 0xF4 | 0xDB | 0xDD | 0xEB | 0xEC | 0xED | 0xFC | 0xFD => 1,
        0xCB => {
            let op2: u8 = cpu.next_instr(addr_space);
            exec_cb_instruction(op2, cpu, addr_space)
        },
    }
}

fn exec_cb_shift(opcode: u8, cpu: &mut CPU, addr_space: &mut AddrSpace) -> (cycles: u8)
    requires
        opcode < 0x40,
    ensures
        cb_shift_rel(opcode, *old(cpu), *old(addr_space), *final(cpu), *final(addr_space), cycles),
        old(cpu).wf() ==> final(cpu).wf(),
        final(addr_space).cart_ok() == old(addr_space).cart_ok(),
{
    match opcode {
        0x07 => rlc_r(Register::A, cpu),
        0x00 => rlc_r(Register::B, cpu),
        0x01 => rlc_r(Register::C, cpu),
        0x02 => rlc_r(Register::D, cpu),
        0x03 => rlc_r(Register::E, cpu),
        0x04 => rlc_r(Register::H, cpu),
        0x05 => rlc_r(Register::L, cpu),
        0x06 => rlc_hl(cpu, addr_space),
        0x17 => rl_r(Register::A, cpu),
        0x10 => rl_r(Register::B, cpu),
        0x11 => rl_r(Register::C, cpu),
        0x12 => rl_r(Register::D, cpu),
        0x13 => rl_r(Register::E, cpu),
        0x14 => rl_r(Register::H, cpu),
        0x15 => rl_r(Register::L, cpu),
        0x16 => rl_hl(cpu, addr_space),
        0x37 => swap_r(Register::A, cpu),
        0x30 => swap_r(Register::B, cpu),
        0x31 => swap_r(Register::C, cpu),
        0x32 => swap_r(Register::D, cpu),
        0x33 => swap_r(Register::E, cpu),
        0x34 => swap_r(Register::H, cpu),
        0x35 => swap_r(Register::L, cpu),
        0x36 => swap_hl(cpu, addr_space),
        0x3F => srl_r(Register::A, cpu),
        0x38 => srl_r(Register::B, cpu),
        0x39 => srl_r(Register::C, cpu),
        0x3A => srl_r(Register::D, cpu),
        0x3B => srl_r(Register::E, cpu),
        0x3C => srl_r(Register::H, cpu),
        0x3D => srl_r(Register::L, cpu),
        0x3E => srl_hl(cpu, addr_space),
        0x0F => rrc_r(Register::A, cpu),
        0x08 => rrc_r(Register::B, cpu),
        0x09 => rrc_r(Register::C, cpu),
        0x0A => rrc_r(Register::D, cpu),
        0x0B => rrc_r(Register::E, cpu),
        0x0C => rrc_r(Register::H, cpu),
        0x0D => rrc_r(Register::L, cpu),
        0x0E => rrc_hl(cpu, addr_space),
        0x1F => rr_r(Register::A, cpu),
        0x18 => rr_r(Register::B, cpu),
        0x19 => rr_r(Register::C, cpu),
        0x1A => rr_r(Register::D, cpu),
        0x1B => rr_r(Register::E, cpu),
        0x1C => rr_r(Register::H, cpu),
        0x1D => rr_r(Register::L, cpu),
        0x1E => rr_hl(cpu, addr_space),
        0x27 => sla_r(Register::A, cpu),
        0x20 => sla_r(Register::B, cpu),
        0x21 => sla_r(Register::C, cpu),
        0x22 => sla_r(Register::D, cpu),
        0x23 => sla_r(Register::E, cpu),
        0x24 => sla_r(Register::H, cpu),
        0x25 => sla_r(Register::L, cpu),
        0x26 => sla_hl(cpu, addr_space),
        0x2F => sra_r(Register::A, cpu),
        0x28 => sra_r(Register::B, cpu),
        0x29 => sra_r(Register::C, cpu),
        0x2A => sra_r(Register::D, cpu),
        0x2B => sra_r(Register::E, cpu),
        0x2C => sra_r(Register::H, cpu),
        0x2D => sra_r(Register::L, cpu),
        0x2E => sra_hl(cpu, addr_space),
        // outside this quarter of the table; unreachable under the
        // range bound
        _ => 1,
    }
}

fn exec_cb_bit(opcode: u8, cpu: &mut CPU, addr_space: &mut AddrSpace) -> (cycles: u8)
    requires
        0x40 <= opcode < 0x80,
    ensures
        cb_bit_rel(opcode, *old(cpu), *old(addr_space), *final(cpu), *final(addr_space), cycles),
        old(cpu).wf() ==> final(cpu).wf(),
        final(addr_space).cart_ok() == old(addr_space).cart_ok(),
{
    match opcode {
        0x40 => bit_n_r(0, Register::B, cpu),
        0x50 => bit_n_r(2, Register::B, cpu),
        0x60 => bit_n_r(4, Register::B, cpu),
        0x70 => bit_n_r(6, Register::B, cpu),
        0x41 => bit_n_r(0, Register::C, cpu),
        0x51 => bit_n_r(2, Register::C, cpu),
        0x61 => bit_n_r(4, Register::C, cpu),
        0x71 => bit_n_r(6, Register::C, cpu),
        0x42 => bit_n_r(0, Register::D, cpu),
        0x52 => bit_n_r(2, Register::D, cpu),
        0x62 => bit_n_r(4, Register::D, cpu),
        0x72 => bit_n_r(6, Register::D, cpu),
        0x43 => bit_n_r(0, Register::E, cpu),
        0x53 => bit_n_r(2, Register::E, cpu),
        0x63 => bit_n_r(4, Register::E, cpu),
        0x73 => bit_n_r(6, Register::E, cpu),
        0x44 => bit_n_r(0, Register::H, cpu),
        0x54 => bit_n_r(2, Register::H, cpu),
        0x64 => bit_n_r(4, Register::H, cpu),
        0x74 => bit_n_r(6, Register::H, cpu),
        0x45 => bit_n_r(0, Register::L, cpu),
        0x55 => bit_n_r(2, Register::L, cpu),
        0x65 => bit_n_r(4, Register::L, cpu),
        0x75 => bit_n_r(6, Register::L, cpu),
        0x47 => bit_n_r(0, Register::A, cpu),
        0x57 => bit_n_r(2, Register::A, cpu),
        0x67 => bit_n_r(4, Register::A, cpu),
        0x77 => bit_n_r(6, Register::A, cpu),
        0x48 => bit_n_r(1, Register::B, cpu),
        0x58 => bit_n_r(3, Register::B, cpu),
        0x68 => bit_n_r(5, Register::B, cpu),
        0x78 => bit_n_r(7, Register::B, cpu),
        0x49 => bit_n_r(1, Register::C, cpu),
        0x59 => bit_n_r(3, Register::C, cpu),
        0x69 => bit_n_r(5, Register::C, cpu),
        0x79 => bit_n_r(7, Register::C, cpu),
        0x4A => bit_n_r(1, Register::D, cpu),
        0x5A => bit_n_r(3, Register::D, cpu),
        0x6A => bit_n_r(5, Register::D, cpu),
        0x7A => bit_n_r(7, Register::D, cpu),
        0x4B => bit_n_r(1, Register::E, cpu),
        0x5B => bit_n_r(3, Register::E, cpu),
        0x6B => bit_n_r(5, Register::E, cpu),
        0x7B => bit_n_r(7, Register::E, cpu),
        0x4C => bit_n_r(1, Register::H, cpu),
        0x5C => bit_n_r(3, Register::H, cpu),
        0x6C => bit_n_r(5, Register::H, cpu),
        0x7C => bit_n_r(7, Register::H, cpu),
        0x4D => bit_n_r(1, Register::L, cpu),
        0x5D => bit_n_r(3, Register::L, cpu),
        0x6D => bit_n_r(5, Register::L, cpu),
        0x7D => bit_n_r(7, Register::L, cpu),
        0x4F => bit_n_r(1, Register::A, cpu),
        0x5F => bit_n_r(3, Register::A, cpu),
        0x6F => bit_n_r(5, Register::A, cpu),
        0x7F => bit_n_r(7, Register::A, cpu),
        0x46 => bit_n_hl(0, cpu, addr_space),
        0x56 => bit_n_hl(2, cpu, addr_space),
        0x66 => bit_n_hl(4, cpu, addr_space),
        0x76 => bit_n_hl(6, cpu, addr_space),
        0x4E => bit_n_hl(1, cpu, addr_space),
        0x5E => bit_n_hl(3, cpu, addr_space),
        0x6E => bit_n_hl(5, cpu, addr_space),
        0x7E => bit_n_hl(7, cpu, addr_space),
        // outside this quarter of the table; unreachable under the
        // range bound
        _ => 1,
    }
}

fn exec_cb_res(opcode: u8, cpu: &mut CPU, addr_space: &mut AddrSpace) -> (cycles: u8)
    requires
        0x80 <= opcode < 0xC0,
    ensures
        cb_res_rel(opcode, *old(cpu), *old(addr_space), *final(cpu), *final(addr_space), cycles),
        old(cpu).wf() ==> final(cpu).wf(),
        final(addr_space).cart_ok() == old(addr_space).cart_ok(),
{
    match opcode {
        0x87 => res_b_r(0, Register::A, cpu),
        0x80 => res_b_r(0, Register::B, cpu),
        0x81 => res_b_r(0, Register::C, cpu),
        0x82 => res_b_r(0, Register::D, cpu),
        0x83 => res_b_r(0, Register::E, cpu),
        0x84 => res_b_r(0, Register::H, cpu),
        0x85 => res_b_r(0, Register::L, cpu),
        0x8F => res_b_r(1, Register::A, cpu),
        0x88 => res_b_r(1, Register::B, cpu),
        0x89 => res_b_r(1, Register::C, cpu),
        0x8A => res_b_r(1, Register::D, cpu),
        0x8B => res_b_r(1, Register::E, cpu),
        0x8C => res_b_r(1, Register::H, cpu),
        0x8D => res_b_r(1, Register::L, cpu),
        0x97 => res_b_r(2, Register::A, cpu),
        0x90 => res_b_r(2, Register::B, cpu),
        0x91 => res_b_r(2, Register::C, cpu),
        0x92 => res_b_r(2, Register::D, cpu),
        0x93 => res_b_r(2, Register::E, cpu),
        0x94 => res_b_r(2, Register::H, cpu),
        0x95 => res_b_r(2, Register::L, cpu),
        0x9F => res_b_r(3, Register::A, cpu),
        0x98 => res_b_r(3, Register::B, cpu),
        0x99 => res_b_r(3, Register::C, cpu),
        0x9A => res_b_r(3, Register::D, cpu),
        0x9B => res_b_r(3, Register::E, cpu),
        0x9C => res_b_r(3, Register::H, cpu),
        0x9D => res_b_r(3, Register::L, cpu),
        0xA7 => res_b_r(4, Register::A, cpu),
        0xA0 => res_b_r(4, Register::B, cpu),
        0xA1 => res_b_r(4, Register::C, cpu),
        0xA2 => res_b_r(4, Register::D, cpu),
        0xA3 => res_b_r(4, Register::E, cpu),
        0xA4 => res_b_r(4, Register::H, cpu),
        0xA5 => res_b_r(4, Register::L, cpu),
        0xAF => res_b_r(5, Register::A, cpu),
        0xA8 => res_b_r(5, Register::B, cpu),
        0xA9 => res_b_r(5, Register::C, cpu),
        0xAA => res_b_r(5, Register::D, cpu),
        0xAB => res_b_r(5, Register::E, cpu),
        0xAC => res_b_r(5, Register::H, cpu),
        0xAD => res_b_r(5, Register::L, cpu),
        0xB7 => res_b_r(6, Register::A, cpu),
        0xB0 => res_b_r(6, Register::B, cpu),
        0xB1 => res_b_r(6, Register::C, cpu),
        0xB2 => res_b_r(6, Register::D, cpu),
        0xB3 => res_b_r(6, Register::E, cpu),
        0xB4 => res_b_r(6, Register::H, cpu),
        0xB5 => res_b_r(6, Register::L, cpu),
        0xBF => res_b_r(7, Register::A, cpu),
        0xB8 => res_b_r(7, Register::B, cpu),
        0xB9 => res_b_r(7, Register::C, cpu),
        0xBA => res_b_r(7, Register::D, cpu),
        0xBB => res_b_r(7, Register::E, cpu),
        0xBC => res_b_r(7, Register::H, cpu),
        0xBD => res_b_r(7, Register::L, cpu),
        0x86 => res_b_hl(0, cpu, addr_space),
        0x8E => res_b_hl(1, cpu, addr_space),
        0x96 => res_b_hl(2, cpu, addr_space),
        0x9E => res_b_hl(3, cpu, addr_space),
        0xA6 => res_b_hl(4, cpu, addr_space),
        0xAE => res_b_hl(5, cpu, addr_space),
        0xB6 => res_b_hl(6, cpu, addr_space),
        0xBE => res_b_hl(7, cpu, addr_space),
        // outside this quarter of the table; unreachable under the
        // range bound
        _ => 1,
    }
}

fn exec_cb_set(opcode: u8, cpu: &mut CPU, addr_space: &mut AddrSpace) -> (cycles: u8)
    requires
        opcode >= 0xC0,
    ensures
        cb_set_rel(opcode, *old(cpu), *old(addr_space), *final(cpu), *final(addr_space), cycles),
        old(cpu).wf() ==> final(cpu).wf(),
        final(addr_space).cart_ok() == old(addr_space).cart_ok(),
{
    match opcode {
        0xC7 => set_b_r(0, Register::A, cpu),
        0xC0 => set_b_r(0, Register::B, cpu),
        0xC1 => set_b_r(0, Register::C, cpu),
        0xC2 => set_b_r(0, Register::D, cpu),
        0xC3 => set_b_r(0, Register::E, cpu),
        0xC4 => set_b_r(0, Register::H, cpu),
        0xC5 => set_b_r(0, Register::L, cpu),
        0xCF => set_b_r(1, Register::A, cpu),
        0xC8 => set_b_r(1, Register::B, cpu),
        0xC9 => set_b_r(1, Register::C, cpu),
        0xCA => set_b_r(1, Register::D, cpu),
        0xCB => set_b_r(1, Register::E, cpu),
        0xCC => set_b_r(1, Register::H, cpu),
        0xCD => set_b_r(1, Register::L, cpu),
        0xD7 => set_b_r(2, Register::A, cpu),
        0xD0 => set_b_r(2, Register::B, cpu),
        0xD1 => set_b_r(2, Register::C, cpu),
        0xD2 => set_b_r(2, Register::D, cpu),
        0xD3 => set_b_r(2, Register::E, cpu),
        0xD4 => set_b_r(2, Register::H, cpu),
        0xD5 => set_b_r(2, Register::L, cpu),
        0xDF => set_b_r(3, Register::A, cpu),
        0xD8 => set_b_r(3, Register::B, cpu),
        0xD9 => set_b_r(3, Register::C, cpu),
        0xDA => set_b_r(3, Register::D, cpu),
        0xDB => set_b_r(3, Register::E, cpu),
        0xDC => set_b_r(3, Register::H, cpu),
        0xDD => set_b_r(3, Register::L, cpu),
        0xE7 => set_b_r(4, Register::A, cpu),
        0xE0 => set_b_r(4, Register::B, cpu),
        0xE1 => set_b_r(4, Register::C, cpu),
        0xE2 => set_b_r(4, Register::D, cpu),
        0xE3 => set_b_r(4, Register::E, cpu),
        0xE4 => set_b_r(4, Register::H, cpu),
        0xE5 => set_b_r(4, Register::L, cpu),
        0xEF => set_b_r(5, Register::A, cpu),
        0xE8 => set_b_r(5, Register::B, cpu),
        0xE9 => set_b_r(5, Register::C, cpu),
        0xEA => set_b_r(5, Register::D, cpu),
        0xEB => set_b_r(5, Register::E, cpu),
        0xEC => set_b_r(5, Register::H, cpu),
        0xED => set_b_r(5, Register::L, cpu),
        0xF7 => set_b_r(6, Register::A, cpu),
        0xF0 => set_b_r(6, Register::B, cpu),
        0xF1 => set_b_r(6, Register::C, cpu),
        0xF2 => set_b_r(6, Register::D, cpu),
        0xF3 => set_b_r(6, Register::E, cpu),
        0xF4 => set_b_r(6, Register::H, cpu),
        0xF5 => set_b_r(6, Register::L, cpu),
        0xFF => set_b_r(7, Register::A, cpu),
        0xF8 => set_b_r(7, Register::B, cpu),
        0xF9 => set_b_r(7, Register::C, cpu),
        0xFA => set_b_r(7, Register::D, cpu),
        0xFB => set_b_r(7, Register::E, cpu),
        0xFC => set_b_r(7, Register::H, cpu),
        0xFD => set_b_r(7, Register::L, cpu),
        0xC6 => set_n_hl(0, cpu, addr_space),
        0xCE => set_n_hl(1, cpu, addr_space),
        0xD6 => set_n_hl(2, cpu, addr_space),
        0xDE => set_n_hl(3, cpu, addr_space),
        0xE6 => set_n_hl(4, cpu, addr_space),
        0xEE => set_n_hl(5, cpu, addr_space),
        0xF6 => set_n_hl(6, cpu, addr_space),
        0xFE => set_n_hl(7, cpu, addr_space),
        // outside this quarter of the table; unreachable under the
        // range bound
        _ => 1,
    }
}

/// Dispatches one opcode of the 0xCB-extended table.
pub fn exec_cb_instruction(opcode: u8, cpu: &mut CPU, addr_space: &mut AddrSpace) -> (cycles: u8)
    ensures
        cb_instr_rel(opcode, *old(cpu), *old(addr_space), *final(cpu), *final(addr_space), cycles),
        old(cpu).wf() ==> final(cpu).wf(),
        final(addr_space).cart_ok() == old(addr_space).cart_ok(),
{
    if opcode < 0x40 {
        exec_cb_shift(opcode, cpu, addr_space)
    } else if opcode < 0x80 {
        exec_cb_bit(opcode, cpu, addr_space)
    } else if opcode < 0xC0 {
        exec_cb_res(opcode, cpu, addr_space)
    } else {
        exec_cb_set(opcode, cpu, addr_space)
    }
}

} // verus!
