use vstd::prelude::*;

use crate::addr::AddrSpace;
use crate::consts::JOYPAD_ADDR;

verus! {

/// A snapshot of the eight buttons; unrelated to the bus until
/// `update_joypad` collapses it into the polled register.
pub struct JoypadState {
    pub up: bool,
    pub down: bool,
    pub left: bool,
    pub right: bool,
    pub a: bool,
    pub b: bool,
    pub start: bool,
    pub select: bool,
}

impl JoypadState {
    /// The snapshot with every button released.
    pub open spec fn released() -> JoypadState {
        JoypadState {
            up: false,
            down: false,
            left: false,
            right: false,
            a: false,
            b: false,
            start: false,
            select: false,
        }
    }

    /// The directional nibble, active low, under the fixed high nibble
    /// 0x1_.
    pub open spec fn direction_bits(self) -> u8 {
        !(0x10u8 | (if self.right {
            1u8
        } else {
            0u8
        }) | (if self.left {
            2u8
        } else {
            0u8
        }) | (if self.up {
            4u8
        } else {
            0u8
        }) | (if self.down {
            8u8
        } else {
            0u8
        }))
    }

    /// The action-button nibble, active low, under the fixed high
    /// nibble 0x2_.
    pub open spec fn button_bits(self) -> u8 {
        !(0x20u8 | (if self.a {
            1u8
        } else {
            0u8
        }) | (if self.b {
            2u8
        } else {
            0u8
        }) | (if self.select {
            4u8
        } else {
            0u8
        }) | (if self.start {
            8u8
        } else {
            0u8
        }))
    }

    /// The byte the joypad register holds after an update: the nibble
    /// the game selected, or the old byte when neither select bit is
    /// low.
    pub open spec fn polled_value(self, b: AddrSpace) -> u8 {
        let j = b.mem(JOYPAD_ADDR);
        if j & 0x10 == 0 {
            self.direction_bits()
        } else if j & 0x20 == 0 {
            self.button_bits()
        } else {
            j
        }
    }

    pub fn new() -> (r: JoypadState)
        ensures
            r == JoypadState::released(),
    {
        JoypadState {
            up: false,
            down: false,
            left: false,
            right: false,
            a: false,
            b: false,
            start: false,
            select: false,
        }
    }

    fn get_bitset_1(&self) -> (r: u8)
        ensures
            r == self.direction_bits(),
    {
        let r_bit: u8 = if self.right {
            1
        } else {
            0
        };
        let l_bit: u8 = if self.left {
            2
        } else {
            0
        };
        let u_bit: u8 = if self.up {
            4
        } else {
            0
        };
        let d_bit: u8 = if self.down {
            8
        } else {
            0
        };
        !(0x10 | r_bit | l_bit | u_bit | d_bit)
    }

    fn get_bitset_2(&self) -> (r: u8)
        ensures
            r == self.button_bits(),
    {
        let a_bit: u8 = if self.a {
            1
        } else {
            0
        };
        let b_bit: u8 = if self.b {
            2
        } else {
            0
        };
        let sel_bit: u8 = if self.select {
            4
        } else {
            0
        };
        let start_bit: u8 = if self.start {
            8
        } else {
            0
        };
        !(0x20 | a_bit | b_bit | sel_bit | start_bit)
    }

    /// Writes into the joypad register whichever active-low nibble the
    /// game selected; raises no interrupt itself.
    pub fn update_joypad(&self, addr_space: &mut AddrSpace)
        ensures
            AddrSpace::write_rel(
                *old(addr_space),
                JOYPAD_ADDR,
                self.polled_value(*old(addr_space)),
                *final(addr_space),
            ),
    {
        let mut joypad: u8 = addr_space.read(JOYPAD_ADDR);
        if joypad & 0x10 == 0 {
            joypad = self.get_bitset_1();
        } else if joypad & 0x20 == 0 {
            joypad = self.get_bitset_2();
        }
        addr_space.write(JOYPAD_ADDR, joypad);
    }

    /// Releases every button.
    pub fn reset(&mut self)
        ensures
            *final(self) == JoypadState::released(),
    {
        self.up = false;
        self.down = false;
        self.left = false;
        self.right = false;
        self.a = false;
        self.b = false;
        self.start = false;
        self.select = false;
    }
}

} // verus!
