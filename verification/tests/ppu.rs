use gb_core::addr::AddrSpace;
use gb_core::ppu::{full_frame_buffer, video_ram_as_pixels, PPU};

fn mode(addr_space: &AddrSpace) -> u8 {
    addr_space.read(0xFF41) & 3
}

#[test]
fn frame_timing_walks_the_four_modes() {
    let mut addr_space = AddrSpace::new([0; 0x100], None);
    let mut ppu = PPU::new();

    // start in OAM-scan mode with an empty accumulator
    addr_space.write(0xFF41, 2);
    assert_eq!(addr_space.read(0xFF44), 0);

    assert!(!ppu.tick(80, &mut addr_space));
    assert_eq!(mode(&addr_space), 3);

    assert!(!ppu.tick(172, &mut addr_space));
    assert_eq!(mode(&addr_space), 0);

    // jump to the last visible line, then finish its horizontal blank
    addr_space.write(0xFF44, 143);
    let vblank = ppu.tick(204, &mut addr_space);
    assert!(vblank);
    assert_eq!(mode(&addr_space), 1);
    assert_eq!(addr_space.read(0xFF44), 144);

    // ten vertical-blank lines advance LY to 153 and wrap back to 0
    for expected in [145u8, 146, 147, 148, 149, 150, 151, 152, 153, 0] {
        assert!(!ppu.tick(456, &mut addr_space));
        assert_eq!(addr_space.read(0xFF44), expected);
    }
    assert_eq!(mode(&addr_space), 2);
}

#[test]
fn vblank_lines_raise_the_vblank_flag() {
    let mut addr_space = AddrSpace::new([0; 0x100], None);
    let mut ppu = PPU::new();
    addr_space.write(0xFF41, 1);
    addr_space.write(0xFF44, 150);
    addr_space.write(0xFF0F, 0);
    ppu.tick(456, &mut addr_space);
    assert!(addr_space.if_vblank());
    assert_eq!(addr_space.read(0xFF44), 151);
}

#[test]
fn accumulator_carries_between_short_ticks() {
    let mut addr_space = AddrSpace::new([0; 0x100], None);
    let mut ppu = PPU::new();
    addr_space.write(0xFF41, 2);
    assert!(!ppu.tick(40, &mut addr_space));
    assert_eq!(mode(&addr_space), 2);
    assert!(!ppu.tick(40, &mut addr_space));
    assert_eq!(mode(&addr_space), 3);
}

#[test]
fn coincidence_bit_follows_ly_and_raises_when_enabled() {
    let mut addr_space = AddrSpace::new([0; 0x100], None);
    let mut ppu = PPU::new();
    addr_space.write(0xFF0F, 0);
    addr_space.write(0xFF45, 7);
    // enable the coincidence interrupt, stay inside a mode
    addr_space.write(0xFF41, 0x42);
    addr_space.write(0xFF44, 7);
    ppu.tick(1, &mut addr_space);
    assert_eq!(addr_space.read(0xFF41) & 0x04, 0x04);
    assert!(addr_space.if_lc_stat());

    // moving off the line clears the coincidence bit again
    addr_space.write(0xFF44, 8);
    addr_space.set_if_lc_stat(false);
    ppu.tick(1, &mut addr_space);
    assert_eq!(addr_space.read(0xFF41) & 0x04, 0);
    assert!(!addr_space.if_lc_stat());
}

#[test]
fn scanline_renders_through_the_background_palette() {
    let mut addr_space = AddrSpace::new([0; 0x100], None);
    let mut ppu = PPU::new();
    // line 0, mode 3, about to finish the pixel transfer
    addr_space.write(0xFF41, 3);
    addr_space.write(0xFF44, 0);
    // tile 0 row 0: both bit-planes all ones -> color code 3 everywhere
    addr_space.write(0x8000, 0xFF);
    addr_space.write(0x8001, 0xFF);
    // unsigned tile data area; palette maps code 3 to black
    addr_space.write(0xFF40, 0x10);
    addr_space.write(0xFF47, 0b11000000);
    ppu.tick(172, &mut addr_space);
    assert_eq!(ppu.pixels[0], 0xFF000000);
    assert_eq!(ppu.pixels[159], 0xFF000000);
    // the next line was not rendered
    assert_eq!(ppu.pixels[160], 0);
}

#[test]
fn sprites_overlay_the_background() {
    let mut addr_space = AddrSpace::new([0; 0x100], None);
    let mut ppu = PPU::new();
    addr_space.write(0xFF41, 3);
    addr_space.write(0xFF44, 0);
    // background: all zero tiles through a palette whose entry 0 is white
    addr_space.write(0xFF40, 0x10);
    addr_space.write(0xFF47, 0);
    // sprite 0: at top-left, tile 1, no flips, palette 0
    addr_space.write(0xFE00, 16);
    addr_space.write(0xFE01, 8);
    addr_space.write(0xFE02, 1);
    addr_space.write(0xFE03, 0);
    // tile 1 row 0: color code 2 in every column
    addr_space.write(0x8010, 0xFF);
    addr_space.write(0x8011, 0x00);
    // object palette 0 maps code 2 to the light shade
    addr_space.write(0xFF48, 0b01000000 | 0b00010000);
    ppu.tick(172, &mut addr_space);
    assert_eq!(ppu.pixels[0], 0xFF555555);
    assert_eq!(ppu.pixels[7], 0xFF555555);
    assert_eq!(ppu.pixels[8], 0xFFFFFFFF);
}

#[test]
fn vram_views_render_tiles() {
    let mut addr_space = AddrSpace::new([0; 0x100], None);
    addr_space.write(0xFF47, 0b11100100);
    // tile 0 row 0 -> code 3 in every column
    addr_space.write(0x8000, 0xFF);
    addr_space.write(0x8001, 0xFF);
    let mut pixels = Box::new([0u32; 65536]);
    video_ram_as_pixels(&addr_space, &mut pixels);
    assert_eq!(pixels[0], 0xFF000000);
    assert_eq!(pixels[7], 0xFF000000);
    assert_eq!(pixels[8], 0xFFFFFFFF);

    // the flat frame view maps every cell of the fixed tile map
    let mut frame = Box::new([0u32; 65536]);
    full_frame_buffer(&addr_space, &mut frame);
    assert_eq!(frame[0], 0xFF000000);
    assert_eq!(frame[255], 0xFF000000);
    assert_eq!(frame[256], 0xFFFFFFFF);
}
