use vstd::prelude::*;

use crate::addr::AddrSpace;
use crate::bits::{hi_byte, high8, lo_byte, low8};
use crate::cpu::CPU;
use crate::instructions::{wrap_dec16, wrap_dec16_2};

verus! {

/// Whether the interrupt selected by `mask` is both enabled and
/// pending.
pub open spec fn pending(b: AddrSpace, mask: u8) -> bool {
    b.ie_bit(mask) && b.if_bit(mask)
}

/// The flag mask of the interrupt the controller services: the first,
/// in priority order VBlank > LCD-STAT > timer > serial > joypad, that
/// is enabled and pending; zero when none is.
pub open spec fn taken_mask(b: AddrSpace) -> u8 {
    if pending(b, 0x01) {
        0x01u8
    } else if pending(b, 0x02) {
        0x02u8
    } else if pending(b, 0x04) {
        0x04u8
    } else if pending(b, 0x08) {
        0x08u8
    } else if pending(b, 0x10) {
        0x10u8
    } else {
        0u8
    }
}

/// The fixed vector each interrupt is dispatched to.
pub open spec fn vector_of(mask: u8) -> u16 {
    if mask == 0x01 {
        0x40u16
    } else if mask == 0x02 {
        0x48u16
    } else if mask == 0x04 {
        0x50u16
    } else if mask == 0x08 {
        0x58u16
    } else {
        0x60u16
    }
}

/// Servicing one interrupt: its pending bit is cleared, the program
/// counter is pushed low byte at sp-2 and high byte at sp-1, both
/// master-enable flags drop, and the program counter becomes the
/// vector.
pub open spec fn service_rel(mask: u8, c0: CPU, b0: AddrSpace, c1: CPU, b1: AddrSpace) -> bool {
    &&& exists|ba: AddrSpace, bb: AddrSpace|
        AddrSpace::only_io_changed(b0, ba) && ba.io_registers@ == b0.io_registers@.update(
            0x0F,
            b0.if_byte_with(mask, false),
        ) && AddrSpace::write_rel(ba, wrap_dec16(c0.sp), high8(c0.pc), bb)
            && AddrSpace::write_rel(bb, wrap_dec16_2(c0.sp), low8(c0.pc), b1)
    &&& c1 == (CPU {
        ime: false,
        schedule_ime: false,
        sp: wrap_dec16_2(c0.sp),
        pc: vector_of(mask),
        ..c0
    })
}

/// What one controller step does: nothing without the master enable or
/// without an enabled pending interrupt, else exactly one service of
/// the highest-priority interrupt, costing five machine cycles.
pub open spec fn interrupts_rel(c0: CPU, b0: AddrSpace, c1: CPU, b1: AddrSpace, extra: u32) -> bool {
    if c0.ime && taken_mask(b0) != 0 {
        service_rel(taken_mask(b0), c0, b0, c1, b1) && extra == 5
    } else {
        c1 == c0 && b1 == b0 && extra == 0
    }
}

/// Services at most one interrupt per call, in fixed priority order;
/// lower-priority interrupts stay pending.
pub fn handle_interrupts(cpu: &mut CPU, addr_space: &mut AddrSpace) -> (extra_cycles: u32)
    ensures
        interrupts_rel(*old(cpu), *old(addr_space), *final(cpu), *final(addr_space), extra_cycles),
        old(cpu).wf() ==> final(cpu).wf(),
        final(addr_space).cart_ok() == old(addr_space).cart_ok(),
{
    if cpu.ime {
        if addr_space.ie_vblank() && addr_space.if_vblank() {
            addr_space.set_if_vblank(false);
            let ghost ba: AddrSpace = *addr_space;
            let c: u8 = handle_interrupt(0x40, cpu, addr_space);
            proof {
                lemma_service(0x01, *old(cpu), *old(addr_space), ba, *cpu, *addr_space);
            }
            c as u32
        } else if addr_space.ie_lc_stat() && addr_space.if_lc_stat() {
            addr_space.set_if_lc_stat(false);
            let ghost ba: AddrSpace = *addr_space;
            let c: u8 = handle_interrupt(0x48, cpu, addr_space);
            proof {
                lemma_service(0x02, *old(cpu), *old(addr_space), ba, *cpu, *addr_space);
            }
            c as u32
        } else if addr_space.ie_timer() && addr_space.if_timer() {
            addr_space.set_if_timer(false);
            let ghost ba: AddrSpace = *addr_space;
            let c: u8 = handle_interrupt(0x50, cpu, addr_space);
            proof {
                lemma_service(0x04, *old(cpu), *old(addr_space), ba, *cpu, *addr_space);
            }
            c as u32
        } else if addr_space.ie_serial() && addr_space.if_serial() {
            addr_space.set_if_serial(false);
            let ghost ba: AddrSpace = *addr_space;
            let c: u8 = handle_interrupt(0x58, cpu, addr_space);
            proof {
                lemma_service(0x08, *old(cpu), *old(addr_space), ba, *cpu, *addr_space);
            }
            c as u32
        } else if addr_space.ie_joypad() && addr_space.if_joypad() {
            addr_space.set_if_joypad(false);
            let ghost ba: AddrSpace = *addr_space;
            let c: u8 = handle_interrupt(0x60, cpu, addr_space);
            proof {
                lemma_service(0x10, *old(cpu), *old(addr_space), ba, *cpu, *addr_space);
            }
            c as u32
        } else {
            0
        }
    } else {
        0
    }
}

/// Packages the two stack writes behind a service into the existential
/// form that `service_rel` states.
proof fn lemma_service(mask: u8, c0: CPU, b0: AddrSpace, ba: AddrSpace, c1: CPU, b1: AddrSpace)
    requires
        AddrSpace::only_io_changed(b0, ba),
        ba.io_registers@ == b0.io_registers@.update(0x0F, b0.if_byte_with(mask, false)),
        exists|bb: AddrSpace|
            AddrSpace::write_rel(ba, wrap_dec16(c0.sp), high8(c0.pc), bb) && AddrSpace::write_rel(
                bb,
                wrap_dec16_2(c0.sp),
                low8(c0.pc),
                b1,
            ),
        c1 == (CPU {
            ime: false,
            schedule_ime: false,
            sp: wrap_dec16_2(c0.sp),
            pc: vector_of(mask),
            ..c0
        }),
    ensures
        service_rel(mask, c0, b0, c1, b1),
{
    let bb = choose|bb: AddrSpace|
        AddrSpace::write_rel(ba, wrap_dec16(c0.sp), high8(c0.pc), bb) && AddrSpace::write_rel(
            bb,
            wrap_dec16_2(c0.sp),
            low8(c0.pc),
            b1,
        );
    assert(AddrSpace::only_io_changed(b0, ba) && ba.io_registers@ == b0.io_registers@.update(
        0x0F,
        b0.if_byte_with(mask, false),
    ) && AddrSpace::write_rel(ba, wrap_dec16(c0.sp), high8(c0.pc), bb) && AddrSpace::write_rel(
        bb,
        wrap_dec16_2(c0.sp),
        low8(c0.pc),
        b1,
    ));
}

/// Vectors the CPU like a call: master enable and its scheduled flag
/// drop, the program counter is pushed and replaced by `dest`.
fn handle_interrupt(dest: u16, cpu: &mut CPU, addr_space: &mut AddrSpace) -> (cycles: u8)
    ensures
        exists|bb: AddrSpace|
            AddrSpace::write_rel(
                *old(addr_space),
                wrap_dec16(old(cpu).sp),
                high8(old(cpu).pc),
                bb,
            ) && AddrSpace::write_rel(
                bb,
                wrap_dec16_2(old(cpu).sp),
                low8(old(cpu).pc),
                *final(addr_space),
            ),
        *final(cpu) == (CPU {
            ime: false,
            schedule_ime: false,
            sp: wrap_dec16_2(old(cpu).sp),
            pc: dest,
            ..*old(cpu)
        }),
        old(cpu).wf() ==> final(cpu).wf(),
        final(addr_space).cart_ok() == old(addr_space).cart_ok(),
        cycles == 5,
{
    cpu.ime = false;
    cpu.schedule_ime = false;
    let pc_hi: u8 = hi_byte(cpu.pc);
    addr_space.write(cpu.sp.wrapping_sub(1), pc_hi);
    let ghost bb: AddrSpace = *addr_space;
    let pc_lo: u8 = lo_byte(cpu.pc);
    addr_space.write(cpu.sp.wrapping_sub(2), pc_lo);
    cpu.sp = cpu.sp.wrapping_sub(2);
    cpu.pc = dest;
    proof {
        assert(AddrSpace::write_rel(
            *old(addr_space),
            wrap_dec16(old(cpu).sp),
            high8(old(cpu).pc),
            bb,
        ));
    }
    5
}

} // verus!
