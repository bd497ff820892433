use vstd::prelude::*;

use crate::addr::AddrSpace;
use crate::bits::{hi_byte, high8, lo_byte, lo_byte_high_nibble, low8, make_word, word};

verus! {

/// One of the eight 8-bit registers.
#[derive(Clone, Copy)]
pub enum Register {
    A,
    B,
    C,
    D,
    E,
    H,
    L,
    F,
}

/// One of the 16-bit register views: four pairs plus the two pointers.
#[derive(Clone, Copy)]
pub enum Register16 {
    AF,
    BC,
    DE,
    HL,
    SP,
    PC,
}

/// The CPU register file: eight 8-bit registers pairable into 16-bit views,
/// stack pointer, program counter, and the interrupt-master-enable pair.
/// The low nibble of `f` is zero in every reachable state.
#[derive(Clone, Copy)]
pub struct CPU {
    pub a: u8,
    pub f: u8,
    pub b: u8,
    pub c: u8,
    pub d: u8,
    pub e: u8,
    pub h: u8,
    pub l: u8,
    pub sp: u16,
    pub pc: u16,
    pub ime: bool,
    pub schedule_ime: bool,
}

// The four flags live in the high nibble of F: zero, subtract, half-carry
// and carry, from bit 7 down to bit 4.

pub open spec fn zero_of(f: u8) -> bool {
    f & 0x80 == 0x80
}

pub open spec fn sub_of(f: u8) -> bool {
    f & 0x40 == 0x40
}

pub open spec fn half_of(f: u8) -> bool {
    f & 0x20 == 0x20
}

pub open spec fn carry_of(f: u8) -> bool {
    f & 0x10 == 0x10
}

/// The flag byte built from the four flag values; its low nibble is zero.
pub open spec fn flags_byte(z: bool, n: bool, h: bool, c: bool) -> u8 {
    (if z {
        0x80u8
    } else {
        0u8
    }) | (if n {
        0x40u8
    } else {
        0u8
    }) | (if h {
        0x20u8
    } else {
        0u8
    }) | (if c {
        0x10u8
    } else {
        0u8
    })
}

/// The flag byte with one flag bit (`m`, a power of two in the high nibble)
/// forced to `v` and every other bit kept.
pub open spec fn set_flag_bit(f: u8, m: u8, v: bool) -> u8 {
    (f & !m) | (if v {
        m
    } else {
        0u8
    })
}

pub proof fn lemma_flags_byte(z: bool, n: bool, h: bool, c: bool)
    ensures
        zero_of(flags_byte(z, n, h, c)) == z,
        sub_of(flags_byte(z, n, h, c)) == n,
        half_of(flags_byte(z, n, h, c)) == h,
        carry_of(flags_byte(z, n, h, c)) == c,
        flags_byte(z, n, h, c) & 0x0F == 0,
{
    let zb: u8 = if z {
        0x80
    } else {
        0
    };
    let nb: u8 = if n {
        0x40
    } else {
        0
    };
    let hb: u8 = if h {
        0x20
    } else {
        0
    };
    let cb: u8 = if c {
        0x10
    } else {
        0
    };
    assert(((zb | nb | hb | cb) & 0x80 == 0x80) == (zb == 0x80) && ((zb | nb | hb | cb) & 0x40
        == 0x40) == (nb == 0x40) && ((zb | nb | hb | cb) & 0x20 == 0x20) == (hb == 0x20) && ((zb
        | nb | hb | cb) & 0x10 == 0x10) == (cb == 0x10) && (zb | nb | hb | cb) & 0x0F == 0)
        by (bit_vector)
        requires
            zb == 0x80 || zb == 0,
            nb == 0x40 || nb == 0,
            hb == 0x20 || hb == 0,
            cb == 0x10 || cb == 0,
    ;
}

pub proof fn lemma_set_flag_bit(f: u8, m: u8, v: bool)
    requires
        m == 0x80 || m == 0x40 || m == 0x20 || m == 0x10,
    ensures
        set_flag_bit(f, m, v) & m == (if v {
            m
        } else {
            0u8
        }),
        m != 0x80 ==> set_flag_bit(f, m, v) & 0x80 == f & 0x80,
        m != 0x40 ==> set_flag_bit(f, m, v) & 0x40 == f & 0x40,
        m != 0x20 ==> set_flag_bit(f, m, v) & 0x20 == f & 0x20,
        m != 0x10 ==> set_flag_bit(f, m, v) & 0x10 == f & 0x10,
        f & 0x0F == 0 ==> set_flag_bit(f, m, v) & 0x0F == 0,
{
    let vb: u8 = if v {
        m
    } else {
        0
    };
    assert(((f & !m) | vb) & m == vb && (m != 0x80 ==> ((f & !m) | vb) & 0x80 == f & 0x80) && (m
        != 0x40 ==> ((f & !m) | vb) & 0x40 == f & 0x40) && (m != 0x20 ==> ((f & !m) | vb) & 0x20
        == f & 0x20) && (m != 0x10 ==> ((f & !m) | vb) & 0x10 == f & 0x10) && (f & 0x0F == 0
        ==> ((f & !m) | vb) & 0x0F == 0)) by (bit_vector)
        requires
            m == 0x80 || m == 0x40 || m == 0x20 || m == 0x10,
            vb == m || vb == 0,
    ;
}

impl CPU {
    /// The flag invariant: the low nibble of F is exactly zero.
    pub open spec fn wf(self) -> bool {
        self.f & 0x0F == 0
    }

    /// The value an 8-bit register read returns.
    pub open spec fn spec_reg(self, register: Register) -> u8 {
        match register {
            Register::A => self.a,
            Register::B => self.b,
            Register::C => self.c,
            Register::D => self.d,
            Register::E => self.e,
            Register::H => self.h,
            Register::L => self.l,
            Register::F => self.f,
        }
    }

    /// The register file after an 8-bit register write; a write to F keeps
    /// only the high nibble.
    pub open spec fn spec_set_reg(self, register: Register, value: u8) -> CPU {
        match register {
            Register::A => CPU { a: value, ..self },
            Register::B => CPU { b: value, ..self },
            Register::C => CPU { c: value, ..self },
            Register::D => CPU { d: value, ..self },
            Register::E => CPU { e: value, ..self },
            Register::H => CPU { h: value, ..self },
            Register::L => CPU { l: value, ..self },
            Register::F => CPU { f: value & 0xF0, ..self },
        }
    }

    /// The value a 16-bit register read returns.
    pub open spec fn spec_reg16(self, register: Register16) -> u16 {
        match register {
            Register16::AF => word(self.a, self.f),
            Register16::BC => word(self.b, self.c),
            Register16::DE => word(self.d, self.e),
            Register16::HL => word(self.h, self.l),
            Register16::SP => self.sp,
            Register16::PC => self.pc,
        }
    }

    /// The register file after a 16-bit register write; a write to AF keeps
    /// only the high nibble of the flag half.
    pub open spec fn spec_set_reg16(self, register: Register16, value: u16) -> CPU {
        match register {
            Register16::AF => CPU { a: high8(value), f: low8(value) & 0xF0, ..self },
            Register16::BC => CPU { b: high8(value), c: low8(value), ..self },
            Register16::DE => CPU { d: high8(value), e: low8(value), ..self },
            Register16::HL => CPU { h: high8(value), l: low8(value), ..self },
            Register16::SP => CPU { sp: value, ..self },
            Register16::PC => CPU { pc: value, ..self },
        }
    }

    pub fn get_reg(&self, register: Register) -> (r: u8)
        ensures
            r == self.spec_reg(register),
    {
        match register {
            Register::A => self.a,
            Register::B => self.b,
            Register::C => self.c,
            Register::D => self.d,
            Register::E => self.e,
            Register::H => self.h,
            Register::L => self.l,
            Register::F => self.f,
        }
    }

    pub fn set_reg(&mut self, register: Register, value: u8)
        ensures
            *final(self) == old(self).spec_set_reg(register, value),
            old(self).wf() ==> final(self).wf(),
    {
        proof {
            lemma_u8_high_nibble(value);
        }
        match register {
            Register::A => self.a = value,
            Register::B => self.b = value,
            Register::C => self.c = value,
            Register::D => self.d = value,
            Register::E => self.e = value,
            Register::H => self.h = value,
            Register::L => self.l = value,
            Register::F => self.f = value & 0xF0,
        }
    }

    pub fn set_reg16(&mut self, register: Register16, value: u16)
        ensures
            *final(self) == old(self).spec_set_reg16(register, value),
            old(self).wf() ==> final(self).wf(),
    {
        proof {
            lemma_u8_high_nibble(low8(value));
        }
        match register {
            Register16::AF => {
                self.a = hi_byte(value);
                self.f = lo_byte_high_nibble(value);
            },
            Register16::BC => {
                self.b = hi_byte(value);
                self.c = lo_byte(value);
            },
            Register16::DE => {
                self.d = hi_byte(value);
                self.e = lo_byte(value);
            },
            Register16::HL => {
                self.h = hi_byte(value);
                self.l = lo_byte(value);
            },
            Register16::SP => {
                self.sp = value;
            },
            Register16::PC => {
                self.pc = value;
            },
        }
    }

    pub fn get_reg16(&self, register: Register16) -> (r: u16)
        ensures
            r == self.spec_reg16(register),
    {
        match register {
            Register16::AF => make_word(self.a, self.f),
            Register16::BC => make_word(self.b, self.c),
            Register16::DE => make_word(self.d, self.e),
            Register16::HL => make_word(self.h, self.l),
            Register16::SP => self.sp,
            Register16::PC => self.pc,
        }
    }

    // The 8-bit registers can be paired to be read and written as 16-bit
    // registers.

    pub fn bc(&self) -> (r: u16)
        ensures
            r == word(self.b, self.c),
    {
        make_word(self.b, self.c)
    }

    pub fn de(&self) -> (r: u16)
        ensures
            r == word(self.d, self.e),
    {
        make_word(self.d, self.e)
    }

    pub fn hl(&self) -> (r: u16)
        ensures
            r == word(self.h, self.l),
    {
        make_word(self.h, self.l)
    }

    /// Reads the byte the program counter points at and advances the
    /// program counter by one with 16-bit wraparound.
    pub fn next_instr(&mut self, addr_space: &AddrSpace) -> (instr: u8)
        ensures
            instr == addr_space.mem(old(self).pc),
            *final(self) == (CPU { pc: ((old(self).pc + 1) % 0x10000) as u16, ..*old(self) }),
    {
        let instr: u8 = addr_space.read(self.pc);
        self.pc = self.pc.wrapping_add(1);
        instr
    }

    // Utility methods to provide the values of the flags.

    pub fn zero_flag(&self) -> (r: bool)
        ensures
            r == zero_of(self.f),
    {
        self.f & 0x80 == 0x80
    }

    pub fn set_zero_flag(&mut self, flag: bool)
        ensures
            *final(self) == (CPU { f: set_flag_bit(old(self).f, 0x80, flag), ..*old(self) }),
            zero_of(final(self).f) == flag,
            sub_of(final(self).f) == sub_of(old(self).f),
            half_of(final(self).f) == half_of(old(self).f),
            carry_of(final(self).f) == carry_of(old(self).f),
            old(self).wf() ==> final(self).wf(),
    {
        proof {
            lemma_set_flag_bit(self.f, 0x80, flag);
        }
        self.f = (self.f & !0x80) | if flag {
            0x80
        } else {
            0
        };
    }

    pub fn sub_flag(&self) -> (r: bool)
        ensures
            r == sub_of(self.f),
    {
        self.f & 0x40 == 0x40
    }

    pub fn set_sub_flag(&mut self, flag: bool)
        ensures
            *final(self) == (CPU { f: set_flag_bit(old(self).f, 0x40, flag), ..*old(self) }),
            sub_of(final(self).f) == flag,
            zero_of(final(self).f) == zero_of(old(self).f),
            half_of(final(self).f) == half_of(old(self).f),
            carry_of(final(self).f) == carry_of(old(self).f),
            old(self).wf() ==> final(self).wf(),
    {
        proof {
            lemma_set_flag_bit(self.f, 0x40, flag);
        }
        self.f = (self.f & !0x40) | if flag {
            0x40
        } else {
            0
        };
    }

    pub fn half_carry_flag(&self) -> (r: bool)
        ensures
            r == half_of(self.f),
    {
        self.f & 0x20 == 0x20
    }

    pub fn set_half_carry_flag(&mut self, flag: bool)
        ensures
            *final(self) == (CPU { f: set_flag_bit(old(self).f, 0x20, flag), ..*old(self) }),
            half_of(final(self).f) == flag,
            zero_of(final(self).f) == zero_of(old(self).f),
            sub_of(final(self).f) == sub_of(old(self).f),
            carry_of(final(self).f) == carry_of(old(self).f),
            old(self).wf() ==> final(self).wf(),
    {
        proof {
            lemma_set_flag_bit(self.f, 0x20, flag);
        }
        self.f = (self.f & !0x20) | if flag {
            0x20
        } else {
            0
        };
    }

    pub fn carry_flag(&self) -> (r: bool)
        ensures
            r == carry_of(self.f),
    {
        self.f & 0x10 == 0x10
    }

    pub fn set_carry_flag(&mut self, flag: bool)
        ensures
            *final(self) == (CPU { f: set_flag_bit(old(self).f, 0x10, flag), ..*old(self) }),
            carry_of(final(self).f) == flag,
            zero_of(final(self).f) == zero_of(old(self).f),
            sub_of(final(self).f) == sub_of(old(self).f),
            half_of(final(self).f) == half_of(old(self).f),
            old(self).wf() ==> final(self).wf(),
    {
        proof {
            lemma_set_flag_bit(self.f, 0x10, flag);
        }
        self.f = (self.f & !0x10) | if flag {
            0x10
        } else {
            0
        };
    }

    /// Replaces the whole flag register from the four flag values; the low
    /// nibble of the result is zero.
    pub fn set_flags(&mut self, z: bool, n: bool, h: bool, c: bool)
        ensures
            *final(self) == (CPU { f: flags_byte(z, n, h, c), ..*old(self) }),
            zero_of(final(self).f) == z,
            sub_of(final(self).f) == n,
            half_of(final(self).f) == h,
            carry_of(final(self).f) == c,
            final(self).wf(),
    {
        proof {
            lemma_flags_byte(z, n, h, c);
        }
        self.f = (if z {
            0x80
        } else {
            0
        }) | (if n {
            0x40
        } else {
            0
        }) | (if h {
            0x20
        } else {
            0
        }) | (if c {
            0x10
        } else {
            0
        });
    }

    /// The documented post-boot register values for the DMG model.
    pub open spec fn post_boot() -> CPU {
        CPU {
            a: 0x01,
            b: 0,
            c: 0x13,
            d: 0,
            e: 0xD8,
            h: 0x01,
            l: 0x4D,
            f: 0x80,
            sp: 0xFFFE,
            pc: 0x0100,
            ime: false,
            schedule_ime: false,
        }
    }

    /// Initializer for the DMG model's post-boot state.
    pub fn new() -> (cpu: CPU)
        ensures
            cpu == CPU::post_boot(),
            cpu.wf(),
    {
        proof {
            assert(0x80u8 & 0x0F == 0) by (bit_vector);
        }
        CPU {
            a: 0x01,
            b: 0,
            c: 0x13,
            d: 0,
            e: 0xD8,
            h: 0x01,
            l: 0x4D,
            f: 0x80,
            sp: 0xFFFE,
            pc: 0x0100,
            ime: false,
            schedule_ime: false,
        }
    }
}

proof fn lemma_u8_high_nibble(v: u8)
    by (bit_vector)
    ensures
        (v & 0xF0) & 0x0F == 0,
{
}

} // verus!
