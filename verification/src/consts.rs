use vstd::prelude::*;

verus! {

// Joypad register.
pub const JOYPAD_ADDR: u16 = 0xFF00;

// Interrupt request and interrupt enable registers.
pub const IF_ADDR: u16 = 0xFF0F;
pub const IE_ADDR: u16 = 0xFFFF;

// LCD control and status registers.
pub const LCDC_ADDR: u16 = 0xFF40;
pub const LCD_STAT_ADDR: u16 = 0xFF41;
pub const SCY_ADDR: u16 = 0xFF42;
pub const SCX_ADDR: u16 = 0xFF43;
pub const LY_ADDR: u16 = 0xFF44;
pub const LYC_ADDR: u16 = 0xFF45;
pub const DMA_ADDR: u16 = 0xFF46;
pub const BG_PALETTE_ADDR: u16 = 0xFF47;
pub const OBJ0_PALETTE_ADDR: u16 = 0xFF48;
pub const WY_ADDR: u16 = 0xFF4A;
pub const WX_ADDR: u16 = 0xFF4B;

// Video memory layout.
pub const VRAM_ADDR_START: u16 = 0x8000;
pub const VRAM_ADDR_END: u16 = 0x9FFF;
pub const TILE_MAP_ADDR: u16 = 0x9800;
pub const TILE_MAP_ADDR_2: u16 = 0x9C00;
pub const OAM_ADDR: u16 = 0xFE00;

} // verus!
