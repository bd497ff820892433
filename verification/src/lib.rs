//! Core of a DMG hand-held emulator: CPU register file, address bus with
//! cartridge banking, instruction engine, interrupt controller, pixel
//! processing unit and joypad register logic, each with a verified contract.

pub mod addr;
pub mod bits;
pub mod consts;
pub mod cpu;
pub mod instructions;
pub mod interrupts;
pub mod joypad;
pub mod machine;
pub mod ppu;
