use vstd::prelude::*;

use crate::addr::AddrSpace;
use crate::cpu::CPU;
use crate::instructions::{base_instr_rel, exec_instruction, wrap_inc16};
use crate::interrupts::{handle_interrupts, interrupts_rel};
use crate::joypad::JoypadState;
use crate::ppu::{blank_screen, tick_rel, PPU};

verus! {

/// One whole machine: the bus, the register file, the pixel processor
/// and the button snapshot, advanced one instruction at a time.
pub struct GameBoy {
    pub addr_space: AddrSpace,
    pub cpu: CPU,
    pub ppu: PPU,
    pub joypad_state: JoypadState,
}

/// The bus at the start of a step: reaching the entry point of the
/// cartridge permanently deactivates the boot block.
pub open spec fn boot_checked(g: GameBoy) -> AddrSpace {
    if g.cpu.pc == 0x100 {
        AddrSpace { running_bios: false, ..g.addr_space }
    } else {
        g.addr_space
    }
}

/// What one machine step does: fetch the opcode at the program
/// counter, dispatch it, feed four clock ticks per machine cycle into
/// the pixel processor, run the interrupt controller and feed its
/// cycles in too if it fired, fold the button snapshot into the joypad
/// register, and apply a deferred interrupt-enable activation.  The
/// step reports whether a frame was completed.
pub open spec fn step_rel(g0: GameBoy, g1: GameBoy, frame_done: bool) -> bool {
    let bs = boot_checked(g0);
    exists|
        ca: CPU,
        ba: AddrSpace,
        cyc: u8,
        pa: PPU,
        bb: AddrSpace,
        vb1: bool,
        cb: CPU,
        bc: AddrSpace,
        extra: u32,
        pb: PPU,
        bd: AddrSpace,
        vb2: bool,
    |
        {
            &&& #[trigger] base_instr_rel(
                bs.mem(g0.cpu.pc),
                (CPU { pc: wrap_inc16(g0.cpu.pc), ..g0.cpu }),
                bs,
                ca,
                ba,
                cyc,
            )
            &&& #[trigger] tick_rel(g0.ppu, (cyc * 4) as u32, ba, pa, bb, vb1)
            &&& #[trigger] interrupts_rel(ca, bb, cb, bc, extra)
            &&& if extra > 0 {
                #[trigger] tick_rel(pa, (extra * 4) as u32, bc, pb, bd, vb2)
            } else {
                pb == pa && bd == bc && vb2 == false
            }
            &&& AddrSpace::write_rel(bd, 0xFF00, g0.joypad_state.polled_value(bd), g1.addr_space)
            &&& g1.cpu == if cb.schedule_ime {
                (CPU { ime: true, schedule_ime: false, ..cb })
            } else {
                cb
            }
            &&& g1.ppu == pb
            &&& g1.joypad_state == g0.joypad_state
            &&& frame_done == (vb1 || vb2)
        }
}

impl GameBoy {
    /// A machine holding the given boot block and cartridge image.
    /// The image must reach at least the two 16KB windows copied out
    /// of it at load time; a shorter image is the one load-time error
    /// and is refused before construction.
    pub fn new(bios: [u8; 0x100], cart: Vec<u8>) -> (g: GameBoy)
        requires
            cart@.len() >= 0x8000,
        ensures
            g.addr_space.bios@ == bios@,
            g.addr_space.cartridge matches Some(c) && c@ == cart@,
            g.addr_space.running_bios,
            g.addr_space.cart_ok(),
            g.cpu == CPU::post_boot(),
            g.cpu.wf(),
            g.ppu.total_cycles == 0,
            g.ppu.pixels@ == blank_screen(),
            g.joypad_state == JoypadState::released(),
    {
        let addr_space = AddrSpace::new(bios, Some(cart));
        let cpu = CPU::new();
        let ppu = PPU::new();
        let joypad_state = JoypadState::new();
        GameBoy { cpu, ppu, addr_space, joypad_state }
    }

    /// A machine with no cartridge and a cleared boot block.
    pub fn empty() -> (g: GameBoy)
        ensures
            g.addr_space.cartridge is None,
            g.addr_space.cart_ok(),
            g.cpu == CPU::post_boot(),
            g.cpu.wf(),
            g.ppu.total_cycles == 0,
            g.ppu.pixels@ == blank_screen(),
            g.joypad_state == JoypadState::released(),
    {
        let addr_space = AddrSpace::new([0; 0x0100], None);
        let cpu = CPU::new();
        let ppu = PPU::new();
        let joypad_state = JoypadState::new();
        GameBoy { cpu, ppu, addr_space, joypad_state }
    }

    /// Advances the machine by one instruction, servicing at most one
    /// interrupt and driving the pixel processor; reports whether this
    /// step completed a frame.
    pub fn instr_tick(&mut self) -> (frame_done: bool)
        requires
            old(self).cpu.wf(),
        ensures
            step_rel(*old(self), *final(self), frame_done),
            final(self).cpu.wf(),
            final(self).addr_space.cart_ok() == old(self).addr_space.cart_ok(),
    {
        if self.cpu.pc == 0x100 {
            self.addr_space.deactivate_bios();
        }
        let instr: u8 = self.cpu.next_instr(&self.addr_space);
        let cycles: u8 = exec_instruction(instr, &mut self.cpu, &mut self.addr_space);
        let ghost ca: CPU = self.cpu;
        let ghost ba: AddrSpace = self.addr_space;
        let mut frame_done: bool = self.ppu.tick((cycles as u32) * 4, &mut self.addr_space);
        let ghost vb1: bool = frame_done;
        let ghost pa: PPU = self.ppu;
        let ghost bb: AddrSpace = self.addr_space;
        let extra_cycles: u32 = handle_interrupts(&mut self.cpu, &mut self.addr_space);
        let ghost cb: CPU = self.cpu;
        let ghost bc: AddrSpace = self.addr_space;
        let ghost mut vb2: bool = false;
        if extra_cycles > 0 {
            let vb: bool = self.ppu.tick(extra_cycles * 4, &mut self.addr_space);
            proof {
                vb2 = vb;
            }
            frame_done = frame_done || vb;
        }
        let ghost pb: PPU = self.ppu;
        let ghost bd: AddrSpace = self.addr_space;
        let jp = &self.joypad_state;
        jp.update_joypad(&mut self.addr_space);
        if self.cpu.schedule_ime {
            self.cpu.schedule_ime = false;
            self.cpu.ime = true;
        }
        proof {
            let bs = boot_checked(*old(self));
            assert(base_instr_rel(
                bs.mem(old(self).cpu.pc),
                (CPU { pc: wrap_inc16(old(self).cpu.pc), ..old(self).cpu }),
                bs,
                ca,
                ba,
                cycles,
            ));
            assert(tick_rel(old(self).ppu, (cycles * 4) as u32, ba, pa, bb, vb1));
            assert(interrupts_rel(ca, bb, cb, bc, extra_cycles));
            assert(AddrSpace::write_rel(
                bd,
                0xFF00,
                old(self).joypad_state.polled_value(bd),
                self.addr_space,
            ));
            let second_tick: bool = tick_rel(pa, (extra_cycles * 4) as u32, bc, pb, bd, vb2);
            if extra_cycles > 0 {
                assert(second_tick);
            }
        }
        frame_done
    }

    // The button snapshot setters the host drives once per step.

    pub fn set_up(&mut self, value: bool)
        ensures
            *final(self) == (GameBoy {
                joypad_state: JoypadState { up: value, ..old(self).joypad_state },
                ..*old(self)
            }),
    {
        self.joypad_state.up = value;
    }

    pub fn set_left(&mut self, value: bool)
        ensures
            *final(self) == (GameBoy {
                joypad_state: JoypadState { left: value, ..old(self).joypad_state },
                ..*old(self)
            }),
    {
        self.joypad_state.left = value;
    }

    pub fn set_right(&mut self, value: bool)
        ensures
            *final(self) == (GameBoy {
                joypad_state: JoypadState { right: value, ..old(self).joypad_state },
                ..*old(self)
            }),
    {
        self.joypad_state.right = value;
    }

    pub fn set_down(&mut self, value: bool)
        ensures
            *final(self) == (GameBoy {
                joypad_state: JoypadState { down: value, ..old(self).joypad_state },
                ..*old(self)
            }),
    {
        self.joypad_state.down = value;
    }

    pub fn set_a(&mut self, value: bool)
        ensures
            *final(self) == (GameBoy {
                joypad_state: JoypadState { a: value, ..old(self).joypad_state },
                ..*old(self)
            }),
    {
        self.joypad_state.a = value;
    }

    pub fn set_b(&mut self, value: bool)
        ensures
            *final(self) == (GameBoy {
                joypad_state: JoypadState { b: value, ..old(self).joypad_state },
                ..*old(self)
            }),
    {
        self.joypad_state.b = value;
    }

    pub fn set_select(&mut self, value: bool)
        ensures
            *final(self) == (GameBoy {
                joypad_state: JoypadState { select: value, ..old(self).joypad_state },
                ..*old(self)
            }),
    {
        self.joypad_state.select = value;
    }

    pub fn set_start(&mut self, value: bool)
        ensures
            *final(self) == (GameBoy {
                joypad_state: JoypadState { start: value, ..old(self).joypad_state },
                ..*old(self)
            }),
    {
        self.joypad_state.start = value;
    }

    /// The frame as RGBA bytes, four per pixel, each channel carrying
    /// the pixel's grey level and a fully opaque alpha.
    pub fn screen(&self) -> (r: Vec<u8>)
        ensures
            r@.len() == 92160,
            forall|i: int|
                0 <= i < 23040 ==> r@[4 * i] == rgba_grey(self.ppu.pixels@[i]) && r@[4 * i + 1]
                    == rgba_grey(self.ppu.pixels@[i]) && r@[4 * i + 2] == rgba_grey(
                    self.ppu.pixels@[i],
                ) && r@[4 * i + 3] == 0xFF,
    {
        let mut out: Vec<u8> = Vec::new();
        let mut i: usize = 0;
        while i < 23040
            invariant
                i <= 23040,
                out@.len() == 4 * i,
                forall|j: int|
                    0 <= j < i ==> out@[4 * j] == rgba_grey(self.ppu.pixels@[j]) && out@[4 * j + 1]
                        == rgba_grey(self.ppu.pixels@[j]) && out@[4 * j + 2] == rgba_grey(
                        self.ppu.pixels@[j],
                    ) && out@[4 * j + 3] == 0xFF,
            decreases 23040 - i,
        {
            let c: u32 = self.ppu.pixels[i];
            let x: u8 = if c == 0xFF000000 {
                0x00
            } else if c == 0xFFAAAAAA {
                0xAA
            } else if c == 0xFF555555 {
                0x55
            } else {
                0xFF
            };
            let ghost out0: Seq<u8> = out@;
            out.push(x);
            out.push(x);
            out.push(x);
            out.push(0xFF);
            proof {
                assert(forall|j: int| 0 <= j < out0.len() ==> out@[j] == out0[j]);
                assert(out@[4 * i as int] == x);
                assert(out@[4 * i as int + 1] == x);
                assert(out@[4 * i as int + 2] == x);
                assert(out@[4 * i as int + 3] == 0xFF);
            }
            i = i + 1;
        }
        out
    }
}

/// The grey level a packed shade maps to in the RGBA view.
pub open spec fn rgba_grey(c: u32) -> u8 {
    if c == 0xFF000000 {
        0x00u8
    } else if c == 0xFFAAAAAA {
        0xAAu8
    } else if c == 0xFF555555 {
        0x55u8
    } else {
        0xFFu8
    }
}

} // verus!
