use vstd::prelude::*;

use crate::addr::AddrSpace;
use crate::bits::{as_signed8, to_signed8};
use crate::consts::{BG_PALETTE_ADDR, LCDC_ADDR, LCD_STAT_ADDR, LYC_ADDR, LY_ADDR, SCX_ADDR,
    SCY_ADDR, WX_ADDR, WY_ADDR};

verus! {

/// The four-mode timing state machine and the rendered pixel buffer.
/// Mode and line state live in bus-resident registers — the machine is
/// a driver over bus state, not a second store of truth.  The buffer
/// holds 160 x 144 packed shades, one scanline rendered per
/// pixel-transfer-mode completion.
pub struct PPU {
    pub total_cycles: u32,
    pub pixels: [u32; 23040],
}

/// An all-zero pixel buffer.
pub open spec fn blank_screen() -> Seq<u32> {
    Seq::new(23040, |i: int| 0u32)
}

/// The line register after one increment: 153 wraps to 0.
pub open spec fn inc_ly_val(ly: u8) -> u8 {
    if ly >= 153 {
        0u8
    } else {
        (ly + 1) as u8
    }
}

/// The status byte after the coincidence recomputation: the
/// coincidence bit follows LY == LYC.
pub open spec fn lyc_stat_after(b: AddrSpace) -> u8 {
    let stat = b.mem(LCD_STAT_ADDR);
    if b.mem(LY_ADDR) == b.mem(LYC_ADDR) && stat & 0x04 == 0 {
        stat | 0x04
    } else if b.mem(LY_ADDR) != b.mem(LYC_ADDR) && stat & 0x04 > 0 {
        stat & !0x04
    } else {
        stat
    }
}

/// Whether the coincidence recomputation raises the LCD-STAT interrupt
/// flag: only on the rising edge of the coincidence bit, and only when
/// the status byte enables the coincidence interrupt.
pub open spec fn lyc_raises(b: AddrSpace) -> bool {
    b.mem(LY_ADDR) == b.mem(LYC_ADDR) && b.mem(LCD_STAT_ADDR) & 0x04 == 0 && b.mem(LCD_STAT_ADDR)
        & 0x40 > 0
}

/// The I/O register page after the coincidence recomputation.
pub open spec fn lyc_io_after(b: AddrSpace) -> Seq<u8> {
    let with_stat = b.io_registers@.update(0x41, lyc_stat_after(b));
    if lyc_raises(b) {
        with_stat.update(0x0F, b.mem(0xFF0F) | 0x02)
    } else {
        with_stat
    }
}

/// The wrapped 32-bit cycle accumulator sum.
pub open spec fn wrap_add32(a: u32, b: u32) -> u32 {
    ((a + b) % 0x100000000) as u32
}

/// What one driver tick does from the state `ba` left by the
/// coincidence recomputation: each mode accumulates until its
/// threshold, then resets the accumulator and advances; leaving
/// pixel-transfer mode renders the current line; reaching line 144
/// enters the vertical blank and reports the completed frame.
pub open spec fn tick_mode_rel(
    p0: PPU,
    elapsed: u32,
    ba: AddrSpace,
    p1: PPU,
    b1: AddrSpace,
    vblank: bool,
) -> bool {
    let acc = wrap_add32(p0.total_cycles, elapsed);
    let stat = ba.mem(LCD_STAT_ADDR);
    let mode = stat & 3;
    if mode == 0 && acc >= 204 {
        let ly1 = inc_ly_val(ba.mem(LY_ADDR));
        &&& AddrSpace::only_io_changed(ba, b1)
        &&& b1.io_registers@ == ba.io_registers@.update(0x44, ly1).update(
            0x41,
            (stat & 0xFC) | (if ly1 == 144 {
                1u8
            } else {
                2u8
            }),
        )
        &&& p1 == (PPU { total_cycles: 0, ..p0 })
        &&& vblank == (ly1 == 144)
    } else if mode == 1 && acc >= 456 {
        let with_stat = if ba.mem(LY_ADDR) == 153 {
            ba.io_registers@.update(0x41, (stat & 0xFC) | 2)
        } else {
            ba.io_registers@
        };
        &&& AddrSpace::only_io_changed(ba, b1)
        &&& b1.io_registers@ == with_stat.update(0x44, inc_ly_val(ba.mem(LY_ADDR))).update(
            0x0F,
            ba.mem(0xFF0F) | 0x01,
        )
        &&& p1 == (PPU { total_cycles: 0, ..p0 })
        &&& vblank == false
    } else if mode == 2 && acc >= 80 {
        &&& AddrSpace::only_io_changed(ba, b1)
        &&& b1.io_registers@ == ba.io_registers@.update(0x41, (stat & 0xFC) | 3)
        &&& p1 == (PPU { total_cycles: 0, ..p0 })
        &&& vblank == false
    } else if mode == 3 && acc >= 172 {
        &&& AddrSpace::only_io_changed(ba, b1)
        &&& b1.io_registers@ == ba.io_registers@.update(0x41, (stat & 0xFC) | 0)
        &&& p1.total_cycles == 0
        &&& p1.pixels@ == scanline_result(b1, p0.pixels@)
        &&& vblank == false
    } else {
        &&& b1 == ba
        &&& p1 == (PPU { total_cycles: acc, ..p0 })
        &&& vblank == false
    }
}

/// What one whole tick does: the coincidence recomputation, then the
/// mode machine.
pub open spec fn tick_rel(
    p0: PPU,
    elapsed: u32,
    b0: AddrSpace,
    p1: PPU,
    b1: AddrSpace,
    vblank: bool,
) -> bool {
    exists|ba: AddrSpace|
        AddrSpace::only_io_changed(b0, ba) && ba.io_registers@ == lyc_io_after(b0)
            && tick_mode_rel(p0, elapsed, ba, p1, b1, vblank)
}

impl PPU {
    pub fn new() -> (r: PPU)
        ensures
            r.total_cycles == 0,
            r.pixels@ == blank_screen(),
    {
        let r = PPU { total_cycles: 0, pixels: [0; 23040] };
        proof {
            assert(r.pixels@ =~= blank_screen());
        }
        r
    }

    /// The mode bits of the status register.
    fn gpu_mode(&self, addr_space: &AddrSpace) -> (mode: u8)
        ensures
            mode == addr_space.mem(LCD_STAT_ADDR) & 3,
    {
        let stat: u8 = addr_space.read(LCD_STAT_ADDR);
        stat & 0x3
    }

    /// Stores a mode into the low bits of the status register.
    fn set_gpu_mode(&mut self, mode: u8, addr_space: &mut AddrSpace)
        ensures
            *final(self) == *old(self),
            AddrSpace::only_io_changed(*old(addr_space), *final(addr_space)),
            final(addr_space).io_registers@ == old(addr_space).io_registers@.update(
                0x41,
                (old(addr_space).mem(LCD_STAT_ADDR) & 0xFC) | mode,
            ),
    {
        let stat: u8 = addr_space.read(LCD_STAT_ADDR);
        addr_space.write(LCD_STAT_ADDR, (stat & 0xFC) | mode);
    }

    /// Drives the mode machine by an elapsed clock-tick count; reports
    /// whether this call completed a frame by entering the vertical
    /// blank.
    pub fn tick(&mut self, elapsed_cycles: u32, addr_space: &mut AddrSpace) -> (entered_vblank:
        bool)
        ensures
            tick_rel(
                *old(self),
                elapsed_cycles,
                *old(addr_space),
                *final(self),
                *final(addr_space),
                entered_vblank,
            ),
            final(addr_space).cart_ok() == old(addr_space).cart_ok(),
    {
        self.total_cycles = self.total_cycles.wrapping_add(elapsed_cycles);
        set_lyc_eq_ly(addr_space);
        let ghost ba: AddrSpace = *addr_space;
        let mode: u8 = self.gpu_mode(addr_space);
        if mode == 0 && self.total_cycles >= 204 {
            self.total_cycles = 0;
            inc_ly(addr_space);
            if ly(addr_space) == 144 {
                self.set_gpu_mode(1, addr_space);
                proof {
                    assert(addr_space.io_registers@ =~= ba.io_registers@.update(
                        0x44,
                        inc_ly_val(ba.mem(LY_ADDR)),
                    ).update(0x41, (ba.mem(LCD_STAT_ADDR) & 0xFC) | 1));
                }
                return true;
            } else {
                self.set_gpu_mode(2, addr_space);
                proof {
                    assert(addr_space.io_registers@ =~= ba.io_registers@.update(
                        0x44,
                        inc_ly_val(ba.mem(LY_ADDR)),
                    ).update(0x41, (ba.mem(LCD_STAT_ADDR) & 0xFC) | 2));
                }
            }
        } else if mode == 1 && self.total_cycles >= 456 {
            self.total_cycles = 0;
            if ly(addr_space) == 153 {
                self.set_gpu_mode(2, addr_space);
            }
            inc_ly(addr_space);
            addr_space.set_if_vblank(true);
        } else if mode == 2 && self.total_cycles >= 80 {
            self.total_cycles = 0;
            self.set_gpu_mode(3, addr_space);
        } else if mode == 3 && self.total_cycles >= 172 {
            self.total_cycles = 0;
            self.set_gpu_mode(0, addr_space);
            scanline(addr_space, &mut self.pixels);
        }
        false
    }
}

/// The current line register.
fn ly(addr_space: &AddrSpace) -> (r: u8)
    ensures
        r == addr_space.mem(LY_ADDR),
{
    addr_space.read(LY_ADDR)
}

/// Advances the line register, wrapping 153 back to 0.
fn inc_ly(addr_space: &mut AddrSpace)
    ensures
        AddrSpace::only_io_changed(*old(addr_space), *final(addr_space)),
        final(addr_space).io_registers@ == old(addr_space).io_registers@.update(
            0x44,
            inc_ly_val(old(addr_space).mem(LY_ADDR)),
        ),
{
    let ly: u8 = addr_space.read(LY_ADDR);
    if ly >= 153 {
        addr_space.write(LY_ADDR, 0);
    } else {
        addr_space.write(LY_ADDR, ly + 1);
    }
}

/// Recomputes the LY == LYC coincidence bit; on its rising edge, with
/// the coincidence interrupt enabled in the status byte, raises the
/// LCD-STAT interrupt flag.
fn set_lyc_eq_ly(addr_space: &mut AddrSpace)
    ensures
        AddrSpace::only_io_changed(*old(addr_space), *final(addr_space)),
        final(addr_space).io_registers@ == lyc_io_after(*old(addr_space)),
{
    let ly: u8 = addr_space.read(LY_ADDR);
    let lyc: u8 = addr_space.read(LYC_ADDR);
    let stat: u8 = addr_space.read(LCD_STAT_ADDR);
    if (ly == lyc) && stat & 0x04 == 0 {
        addr_space.write(LCD_STAT_ADDR, stat | 0x04);
        if stat & 0x40 > 0 {
            addr_space.set_if_lc_stat(true);
        } else {
            proof {
                assert(addr_space.io_registers@ =~= lyc_io_after(*old(addr_space)));
            }
        }
    } else if (ly != lyc) && stat & 0x04 > 0 {
        addr_space.write(LCD_STAT_ADDR, stat & !0x04);
        proof {
            assert(addr_space.io_registers@ =~= lyc_io_after(*old(addr_space)));
        }
    } else {
        proof {
            assert(addr_space.io_registers@ =~= lyc_io_after(*old(addr_space)));
        }
    }
}

// The scanline algorithm: a background pixel for each of the 160
// columns, overwritten by the window where it covers the column, then
// a scan of the 40 sprite entries in which the lowest visible entry
// wins and background-priority sprites yield to a non-transparent
// background pixel.

/// The four shades, indexed by a palette entry; entry zero is either
/// opaque white or the transparent marker.
pub open spec fn shade(entry: u8, transparency: bool) -> u32 {
    if entry == 1 {
        0xFF555555u32
    } else if entry == 2 {
        0xFFAAAAAAu32
    } else if entry == 3 {
        0xFF000000u32
    } else if transparency {
        0u32
    } else {
        0xFFFFFFFFu32
    }
}

/// The palette entry a 2-bit color code selects in a palette byte.
pub open spec fn palette_code(pb: u8, code: u8) -> u8 {
    if code == 0 {
        pb & 0x3
    } else if code == 1 {
        (pb & (0x3u8 << 2)) >> 2
    } else if code == 2 {
        (pb & (0x3u8 << 4)) >> 4
    } else {
        (pb & (0x3u8 << 6)) >> 6
    }
}

/// A 2-bit color code mapped through a palette byte to a shade.
pub open spec fn palette_shade(pb: u8, code: u8, transparency: bool) -> u32 {
    shade(palette_code(pb, code), transparency)
}

/// The 2-bit color code at bit `i` of the two tile bit-planes.
pub open spec fn color_code(b1: u8, b2: u8, i: u8) -> u8 {
    (((b1 & (1u8 << i)) >> i) << 1) | ((b2 & (1u8 << i)) >> i)
}

proof fn lemma_color_code_bound(b1: u8, b2: u8, i: u8)
    by (bit_vector)
    requires
        i < 8,
    ensures
        ((((b1 & (1u8 << i)) >> i) << 1) | ((b2 & (1u8 << i)) >> i)) < 4,
{
}

/// The tile-data address of one tile row: unsigned indexing from 0x8000
/// when the LCD-control bit selects it, else signed indexing from
/// 0x9000.
pub open spec fn tile_row_addr(lcdc: u8, tile: u8, offset: u16) -> u16 {
    if lcdc & 0x10 > 0 {
        (0x8000 + tile * 16 + offset) as u16
    } else {
        ((0x9000 + as_signed8(tile) * 16) + offset) as u16
    }
}

/// Maps a 2-bit color code to its shade through a palette byte.
fn shade_lookup(palette_byte: u8, code: u8, transparency: bool) -> (r: u32)
    requires
        code < 4,
    ensures
        r == palette_shade(palette_byte, code, transparency),
{
    let entry: u8 = if code == 0 {
        palette_byte & 0x3
    } else if code == 1 {
        (palette_byte & (0x3u8 << 2)) >> 2
    } else if code == 2 {
        (palette_byte & (0x3u8 << 4)) >> 4
    } else {
        (palette_byte & (0x3u8 << 6)) >> 6
    };
    if entry == 1 {
        0xFF555555
    } else if entry == 2 {
        0xFFAAAAAA
    } else if entry == 3 {
        0xFF000000
    } else if transparency {
        0
    } else {
        0xFFFFFFFF
    }
}

/// Combines the two bit-planes of a tile row at one bit position.
fn color_bit(b1: u8, b2: u8, i: u8) -> (r: u8)
    requires
        i < 8,
    ensures
        r == color_code(b1, b2, i),
        r < 4,
{
    proof {
        lemma_color_code_bound(b1, b2, i);
    }
    let bitmask: u8 = 1u8 << i;
    (((b1 & bitmask) >> i) << 1) | ((b2 & bitmask) >> i)
}

/// Computes the tile-data address of one tile row.
fn bg_tiles_addr(lcdc: u8, tile_index: u8, offset: u16) -> (r: u16)
    requires
        offset < 32,
    ensures
        r == tile_row_addr(lcdc, tile_index, offset),
{
    if lcdc & 0x10 > 0 {
        0x8000 + (tile_index as u16) * 16 + offset
    } else {
        ((0x9000i32 + (to_signed8(tile_index) as i32) * 16) + offset as i32) as u16
    }
}

/// Whether the window covers column `x` of the current line.
pub open spec fn window_covers(b: AddrSpace, x: int) -> bool {
    let yw = b.mem(LY_ADDR) - b.mem(WY_ADDR);
    let xw = x - b.mem(WX_ADDR) + 7;
    b.mem(LCDC_ADDR) & 0x20 > 0 && 0 <= yw <= 144 && 0 <= xw <= 160
}

/// The window shade at column `x` of the current line.
pub open spec fn window_pixel(b: AddrSpace, x: int) -> u32 {
    let yw = b.mem(LY_ADDR) - b.mem(WY_ADDR);
    let xw = x - b.mem(WX_ADDR) + 7;
    let tile = b.mem((0x9C00 + (yw / 8) * 32 + xw / 8) as u16);
    let b1 = b.mem(tile_row_addr(b.mem(LCDC_ADDR), tile, ((yw % 8) * 2) as u16));
    let b2 = b.mem(tile_row_addr(b.mem(LCDC_ADDR), tile, (1 + (yw % 8) * 2) as u16));
    palette_shade(b.mem(BG_PALETTE_ADDR), color_code(b1, b2, (7 - xw % 8) as u8), false)
}

/// The scrolled background shade at column `x` of the current line.
pub open spec fn bg_base_pixel(b: AddrSpace, x: int) -> u32 {
    let y = (b.mem(LY_ADDR) + b.mem(SCY_ADDR)) % 256;
    let tx = (b.mem(SCX_ADDR) + x) % 256;
    let tile = b.mem((0x9800 + (y / 8) * 32 + tx / 8) as u16);
    let b1 = b.mem(tile_row_addr(b.mem(LCDC_ADDR), tile, ((y % 8) * 2) as u16));
    let b2 = b.mem(tile_row_addr(b.mem(LCDC_ADDR), tile, (1 + (y % 8) * 2) as u16));
    palette_shade(b.mem(BG_PALETTE_ADDR), color_code(b1, b2, (7 - tx % 8) as u8), false)
}

/// The background layer's shade at column `x`: the window where it
/// covers the column, the scrolled background elsewhere.
pub open spec fn bg_pixel(b: AddrSpace, x: int) -> u32 {
    if window_covers(b, x) {
        window_pixel(b, x)
    } else {
        bg_base_pixel(b, x)
    }
}

/// One background or window pixel.
fn bg_pixel_at(addr_space: &AddrSpace, x: u16) -> (r: u32)
    requires
        x < 160,
    ensures
        r == bg_pixel(*addr_space, x as int),
{
    let lcdc: u8 = addr_space.read(LCDC_ADDR);
    let bgp: u8 = addr_space.read(BG_PALETTE_ADDR);
    let h_line: u16 = addr_space.read(LY_ADDR) as u16;
    if lcdc & 0x20 > 0 {
        let wy: i32 = addr_space.read(WY_ADDR) as i32;
        let wx: i32 = addr_space.read(WX_ADDR) as i32;
        let yw: i32 = h_line as i32 - wy;
        let xw: i32 = x as i32 - wx + 7;
        if yw >= 0 && yw <= 144 && xw >= 0 && xw <= 160 {
            let tile_index: u16 = ((yw / 8) * 32 + xw / 8) as u16;
            let tile: u8 = addr_space.read(0x9C00 + tile_index);
            let row: u16 = (yw % 8) as u16;
            let b1: u8 = addr_space.read(bg_tiles_addr(lcdc, tile, row * 2));
            let b2: u8 = addr_space.read(bg_tiles_addr(lcdc, tile, 1 + row * 2));
            let code: u8 = color_bit(b1, b2, (7 - (xw % 8)) as u8);
            return shade_lookup(bgp, code, false);
        }
    }
    let scroll_y: u16 = addr_space.read(SCY_ADDR) as u16;
    let scroll_x: u16 = addr_space.read(SCX_ADDR) as u16;
    let y: u16 = (h_line + scroll_y) % 256;
    let tx: u16 = (scroll_x + x) % 256;
    let tile_index: u16 = (y / 8) * 32 + tx / 8;
    let tile: u8 = addr_space.read(0x9800 + tile_index);
    let row: u16 = y % 8;
    let b1: u8 = addr_space.read(bg_tiles_addr(lcdc, tile, row * 2));
    let b2: u8 = addr_space.read(bg_tiles_addr(lcdc, tile, 1 + row * 2));
    let code: u8 = color_bit(b1, b2, (7 - tx % 8) as u8);
    shade_lookup(bgp, code, false)
}

// The sprite scan, stated per sprite-table entry and per column.

/// The sprite height the LCD-control register selects.
pub open spec fn obj_size(b: AddrSpace) -> int {
    if b.mem(LCDC_ADDR) & 0x4 > 0 {
        16
    } else {
        8
    }
}

/// One byte of sprite-table entry `s`.
pub open spec fn oam_byte(b: AddrSpace, s: int, k: int) -> u8 {
    b.mem((0xFE00 + s * 4 + k) as u16)
}

/// The screen row of the sprite's top edge.
pub open spec fn sprite_top(b: AddrSpace, s: int) -> int {
    oam_byte(b, s, 0) - 16
}

/// The screen column of the sprite's left edge.
pub open spec fn sprite_left(b: AddrSpace, s: int) -> int {
    oam_byte(b, s, 1) - 8
}

/// Whether the sprite's vertical extent covers the current line and its
/// horizontal extent overlaps the screen.
pub open spec fn sprite_on_line(b: AddrSpace, s: int) -> bool {
    &&& b.mem(LY_ADDR) >= sprite_top(b, s)
    &&& b.mem(LY_ADDR) < sprite_top(b, s) + obj_size(b)
    &&& sprite_left(b, s) + 8 >= 0
    &&& sprite_left(b, s) - 8 < 160
}

/// The row within the sprite that the current line shows, after the
/// optional vertical flip.
pub open spec fn sprite_row(b: AddrSpace, s: int) -> int {
    if oam_byte(b, s, 3) & 0x40 > 0 {
        obj_size(b) - (b.mem(LY_ADDR) - sprite_top(b, s)) - 1
    } else {
        b.mem(LY_ADDR) - sprite_top(b, s)
    }
}

/// The sprite's 2-bit color code at column `x`, after the optional
/// horizontal flip.
pub open spec fn sprite_code(b: AddrSpace, s: int, x: int) -> u8 {
    let k = x - sprite_left(b, s);
    let bit = if oam_byte(b, s, 3) & 0x20 > 0 {
        k
    } else {
        7 - k
    };
    color_code(
        b.mem((0x8000 + oam_byte(b, s, 2) * 16 + sprite_row(b, s) * 2) as u16),
        b.mem((0x8000 + oam_byte(b, s, 2) * 16 + 1 + sprite_row(b, s) * 2) as u16),
        bit as u8,
    )
}

/// Whether sprite `s` puts a pixel at column `x`: it covers the column
/// with a non-transparent color code.
pub open spec fn sprite_covers(b: AddrSpace, s: int, x: int) -> bool {
    &&& sprite_on_line(b, s)
    &&& sprite_left(b, s) <= x < sprite_left(b, s) + 8
    &&& sprite_code(b, s, x) != 0
}

/// Whether sprite `s` is drawn at column `x` over the background shade
/// `bg`: always, unless it requests background priority and the
/// background pixel there is not transparent.
pub open spec fn sprite_visible(b: AddrSpace, s: int, x: int, bg: u32) -> bool {
    sprite_covers(b, s, x) && (oam_byte(b, s, 3) & 0x80 == 0 || bg == 0xFFFFFFFF)
}

/// The sprite's shade at column `x`, through the object palette its
/// flags select.
pub open spec fn sprite_shade(b: AddrSpace, s: int, x: int) -> u32 {
    palette_shade(b.mem((0xFF48 + (oam_byte(b, s, 3) & 1)) as u16), sprite_code(b, s, x), true)
}

/// The shade at column `x` after scanning sprite entries `s` and up:
/// the lowest-index visible sprite wins; with none, the background.
pub open spec fn sprite_result(b: AddrSpace, s: int, x: int, bg: u32) -> u32
    decreases 40 - s,
{
    if s >= 40 {
        bg
    } else if sprite_visible(b, s, x, bg) {
        sprite_shade(b, s, x)
    } else {
        sprite_result(b, s + 1, x, bg)
    }
}

/// The final shade of column `x` on the current line.
pub open spec fn row_pixel(b: AddrSpace, x: int) -> u32 {
    sprite_result(b, 0, x, bg_pixel(b, x))
}

/// The pixel buffer after rendering the current line: rows other than
/// LY keep their pixels; a line register outside the visible 144 rows
/// renders nothing.
pub open spec fn scanline_result(b: AddrSpace, px: Seq<u32>) -> Seq<u32> {
    if b.mem(LY_ADDR) < 144 {
        Seq::new(
            23040,
            |i: int|
                if b.mem(LY_ADDR) * 160 <= i < b.mem(LY_ADDR) * 160 + 160 {
                    row_pixel(b, i - b.mem(LY_ADDR) * 160)
                } else {
                    px[i]
                },
        )
    } else {
        px
    }
}

/// Draws one sprite entry onto the current line, over what the entries
/// above it left.
fn draw_sprite(
    addr_space: &AddrSpace,
    s: usize,
    bg_row: &[u32; 160],
    pixels: &mut [u32; 23040],
    h_line: u8,
)
    requires
        s < 40,
        h_line == addr_space.mem(LY_ADDR),
        h_line < 144,
        forall|j: int| 0 <= j < 160 ==> bg_row@[j] == bg_pixel(*addr_space, j),
        forall|j: int|
            0 <= j < 160 ==> old(pixels)@[h_line * 160 + j] == sprite_result(
                *addr_space,
                s + 1,
                j,
                bg_pixel(*addr_space, j),
            ),
    ensures
        forall|j: int|
            0 <= j < 160 ==> final(pixels)@[h_line * 160 + j] == sprite_result(
                *addr_space,
                s as int,
                j,
                bg_pixel(*addr_space, j),
            ),
        forall|j: int|
            0 <= j < 23040 && !(h_line * 160 <= j < h_line * 160 + 160) ==> final(pixels)@[j]
                == old(pixels)@[j],
{
    let oam_base: u16 = 0xFE00 + (s as u16) * 4;
    let sy: i32 = addr_space.read(oam_base) as i32 - 16;
    let sx: i32 = addr_space.read(oam_base + 1) as i32 - 8;
    let tile: u16 = addr_space.read(oam_base + 2) as u16;
    let flags: u8 = addr_space.read(oam_base + 3);
    let lcdc: u8 = addr_space.read(LCDC_ADDR);
    let size: i32 = if lcdc & 0x4 > 0 {
        16
    } else {
        8
    };
    let ly_i: i32 = h_line as i32;
    if ly_i >= sy && ly_i < sy + size && sx + 8 >= 0 && sx - 8 < 160 {
        let row: i32 = if flags & 0x40 > 0 {
            size - (ly_i - sy) - 1
        } else {
            ly_i - sy
        };
        let b1: u8 = addr_space.read(0x8000 + tile * 16 + (row as u16) * 2);
        let b2: u8 = addr_space.read(0x8000 + tile * 16 + 1 + (row as u16) * 2);
        proof {
            assert(flags & 1 < 2) by (bit_vector);
        }
        let pb: u8 = addr_space.read(0xFF48 + ((flags & 1) as u16));
        let mut k: i32 = 0;
        while k < 8
            invariant
                0 <= k <= 8,
                s < 40,
                h_line == addr_space.mem(LY_ADDR),
                h_line < 144,
                sy == sprite_top(*addr_space, s as int),
                sx == sprite_left(*addr_space, s as int),
                sprite_on_line(*addr_space, s as int),
                flags == oam_byte(*addr_space, s as int, 3),
                pb == addr_space.mem((0xFF48 + (flags & 1)) as u16),
                b1 == addr_space.mem(
                    (0x8000 + oam_byte(*addr_space, s as int, 2) * 16 + sprite_row(
                        *addr_space,
                        s as int,
                    ) * 2) as u16,
                ),
                b2 == addr_space.mem(
                    (0x8000 + oam_byte(*addr_space, s as int, 2) * 16 + 1 + sprite_row(
                        *addr_space,
                        s as int,
                    ) * 2) as u16,
                ),
                forall|j: int|
                    0 <= j < 160 && sx <= j && j < sx + k ==> pixels@[h_line * 160 + j]
                        == sprite_result(*addr_space, s as int, j, bg_pixel(*addr_space, j)),
                forall|j: int|
                    0 <= j < 160 && !(sx <= j && j < sx + k) ==> pixels@[h_line * 160 + j]
                        == sprite_result(*addr_space, s + 1, j, bg_pixel(*addr_space, j)),
                forall|j: int|
                    0 <= j < 23040 && !(h_line * 160 <= j < h_line * 160 + 160) ==> pixels@[j]
                        == old(pixels)@[j],
                forall|j: int| 0 <= j < 160 ==> bg_row@[j] == bg_pixel(*addr_space, j),
            decreases 8 - k,
        {
            let px: i32 = sx + k;
            if px >= 0 && px < 160 {
                let bit: u8 = if flags & 0x20 > 0 {
                    k as u8
                } else {
                    (7 - k) as u8
                };
                let code: u8 = color_bit(b1, b2, bit);
                proof {
                    assert(code == sprite_code(*addr_space, s as int, px as int));
                }
                if code != 0 && (flags & 0x80 == 0 || bg_row[px as usize] == 0xFFFFFFFF) {
                    let shade_value: u32 = shade_lookup(pb, code, true);
                    pixels[(h_line as usize) * 160 + (px as usize)] = shade_value;
                    proof {
                        assert(sprite_visible(
                            *addr_space,
                            s as int,
                            px as int,
                            bg_pixel(*addr_space, px as int),
                        ));
                        assert(shade_value == sprite_shade(*addr_space, s as int, px as int));
                    }
                } else {
                    proof {
                        assert(!sprite_visible(
                            *addr_space,
                            s as int,
                            px as int,
                            bg_pixel(*addr_space, px as int),
                        ));
                    }
                }
            }
            k = k + 1;
        }
        proof {
            assert forall|j: int|
                0 <= j < 160 && !(sx <= j && j < sx + 8) implies pixels@[h_line * 160 + j]
                == sprite_result(*addr_space, s as int, j, bg_pixel(*addr_space, j)) by {
                assert(!sprite_covers(*addr_space, s as int, j));
            }
        }
    } else {
        proof {
            assert forall|j: int| 0 <= j < 160 implies pixels@[h_line * 160 + j] == sprite_result(
                *addr_space,
                s as int,
                j,
                bg_pixel(*addr_space, j),
            ) by {
                assert(!sprite_on_line(*addr_space, s as int));
                assert(!sprite_covers(*addr_space, s as int, j));
            }
        }
    }
}

/// Renders the current line into the pixel buffer: the background and
/// window pass, then the sprite scan from the highest entry down so
/// that the lowest visible entry ends on top.
fn scanline(addr_space: &AddrSpace, pixels: &mut [u32; 23040])
    ensures
        final(pixels)@ == scanline_result(*addr_space, old(pixels)@),
{
    let h_line: u8 = addr_space.read(LY_ADDR);
    if h_line >= 144 {
        return ;
    }
    let base: usize = (h_line as usize) * 160;
    let mut x: usize = 0;
    while x < 160
        invariant
            x <= 160,
            base == h_line * 160,
            h_line == addr_space.mem(LY_ADDR),
            h_line < 144,
            forall|j: int| 0 <= j < x ==> pixels@[base + j] == bg_pixel(*addr_space, j),
            forall|j: int|
                0 <= j < 23040 && !(base <= j < base + x) ==> pixels@[j] == old(pixels)@[j],
        decreases 160 - x,
    {
        let v: u32 = bg_pixel_at(addr_space, x as u16);
        pixels[base + x] = v;
        x = x + 1;
    }
    let mut bg_row: [u32; 160] = [0; 160];
    let mut k: usize = 0;
    while k < 160
        invariant
            k <= 160,
            base == h_line * 160,
            h_line == addr_space.mem(LY_ADDR),
            h_line < 144,
            forall|j: int| 0 <= j < 160 ==> pixels@[base + j] == bg_pixel(*addr_space, j),
            forall|j: int|
                0 <= j < 23040 && !(base <= j < base + 160) ==> pixels@[j] == old(pixels)@[j],
            forall|j: int| 0 <= j < k ==> bg_row@[j] == bg_pixel(*addr_space, j),
        decreases 160 - k,
    {
        bg_row[k] = pixels[base + k];
        k = k + 1;
    }
    let mut s: usize = 40;
    while s > 0
        invariant
            s <= 40,
            base == h_line * 160,
            h_line == addr_space.mem(LY_ADDR),
            h_line < 144,
            forall|j: int| 0 <= j < 160 ==> bg_row@[j] == bg_pixel(*addr_space, j),
            forall|j: int|
                0 <= j < 160 ==> pixels@[base + j] == sprite_result(
                    *addr_space,
                    s as int,
                    j,
                    bg_pixel(*addr_space, j),
                ),
            forall|j: int|
                0 <= j < 23040 && !(base <= j < base + 160) ==> pixels@[j] == old(pixels)@[j],
        decreases s,
    {
        s = s - 1;
        draw_sprite(addr_space, s, &bg_row, pixels, h_line);
    }
    proof {
        assert(pixels@ =~= scanline_result(*addr_space, old(pixels)@));
    }
}


// Whole-tile-map views for a host that wants to inspect video memory:
// both fill a 256 x 256 buffer from the tile data.

/// The shade of one buffer cell when video RAM is read as a flat grid
/// of tiles, 32 per row.
pub open spec fn vram_tile_pixel(b: AddrSpace, idx: int) -> u32 {
    let x = idx % 256;
    let y = idx / 256;
    let i = ((y / 8) * 32 + x / 8) * 8 + y % 8;
    palette_shade(
        b.mem(BG_PALETTE_ADDR),
        color_code(
            b.mem((0x8000 + i * 2) as u16),
            b.mem((0x8000 + i * 2 + 1) as u16),
            (7 - x % 8) as u8,
        ),
        false,
    )
}

/// Renders video RAM as a flat grid of tiles into the top half of a
/// 256 x 256 buffer; the bottom half is left as it was.
pub fn video_ram_as_pixels(addr_space: &AddrSpace, pixels: &mut [u32; 65536])
    ensures
        forall|idx: int|
            0 <= idx < 32768 ==> final(pixels)@[idx] == vram_tile_pixel(*addr_space, idx),
        forall|idx: int| 32768 <= idx < 65536 ==> final(pixels)@[idx] == old(pixels)@[idx],
{
    let bgp: u8 = addr_space.read(BG_PALETTE_ADDR);
    let mut y: usize = 0;
    while y < 128
        invariant
            y <= 128,
            bgp == addr_space.mem(BG_PALETTE_ADDR),
            forall|idx: int|
                0 <= idx < y * 256 ==> pixels@[idx] == vram_tile_pixel(*addr_space, idx),
            forall|idx: int| y * 256 <= idx < 65536 ==> pixels@[idx] == old(pixels)@[idx],
        decreases 128 - y,
    {
        let mut x: usize = 0;
        while x < 256
            invariant
                y < 128,
                x <= 256,
                bgp == addr_space.mem(BG_PALETTE_ADDR),
                forall|idx: int|
                    0 <= idx < y * 256 + x ==> pixels@[idx] == vram_tile_pixel(*addr_space, idx),
                forall|idx: int| y * 256 + x <= idx < 65536 ==> pixels@[idx] == old(pixels)@[idx],
            decreases 256 - x,
        {
            let i: usize = ((y / 8) * 32 + x / 8) * 8 + y % 8;
            let b1: u8 = addr_space.read(0x8000 + (i as u16) * 2);
            let b2: u8 = addr_space.read(0x8000 + (i as u16) * 2 + 1);
            let code: u8 = color_bit(b1, b2, (7 - (x % 8)) as u8);
            let v: u32 = shade_lookup(bgp, code, false);
            pixels[y * 256 + x] = v;
            x = x + 1;
        }
        y = y + 1;
    }
}

/// The shade of one buffer cell when the fixed background tile map is
/// rendered without scrolling, always through unsigned tile indexing.
pub open spec fn frame_tile_pixel(b: AddrSpace, idx: int) -> u32 {
    let x = idx % 256;
    let y = idx / 256;
    let tile = b.mem((0x9800 + (y / 8) * 32 + x / 8) as u16);
    palette_shade(
        b.mem(BG_PALETTE_ADDR),
        color_code(
            b.mem((0x8000 + tile * 16 + (y % 8) * 2) as u16),
            b.mem((0x8000 + tile * 16 + 1 + (y % 8) * 2) as u16),
            (7 - x % 8) as u8,
        ),
        false,
    )
}

/// Renders the whole fixed background tile map into a 256 x 256
/// buffer.
pub fn full_frame_buffer(addr_space: &AddrSpace, pixels: &mut [u32; 65536])
    ensures
        forall|idx: int|
            0 <= idx < 65536 ==> final(pixels)@[idx] == frame_tile_pixel(*addr_space, idx),
{
    let bgp: u8 = addr_space.read(BG_PALETTE_ADDR);
    let mut y: usize = 0;
    while y < 256
        invariant
            y <= 256,
            bgp == addr_space.mem(BG_PALETTE_ADDR),
            forall|idx: int|
                0 <= idx < y * 256 ==> pixels@[idx] == frame_tile_pixel(*addr_space, idx),
        decreases 256 - y,
    {
        let mut x: usize = 0;
        while x < 256
            invariant
                y < 256,
                x <= 256,
                bgp == addr_space.mem(BG_PALETTE_ADDR),
                forall|idx: int|
                    0 <= idx < y * 256 + x ==> pixels@[idx] == frame_tile_pixel(*addr_space, idx),
            decreases 256 - x,
        {
            let tile: u16 = addr_space.read(0x9800 + ((y / 8) as u16) * 32 + (x / 8) as u16)
                as u16;
            let b1: u8 = addr_space.read(0x8000 + tile * 16 + ((y % 8) as u16) * 2);
            let b2: u8 = addr_space.read(0x8000 + tile * 16 + 1 + ((y % 8) as u16) * 2);
            let code: u8 = color_bit(b1, b2, (7 - (x % 8)) as u8);
            let v: u32 = shade_lookup(bgp, code, false);
            pixels[y * 256 + x] = v;
            x = x + 1;
        }
        y = y + 1;
    }
}

} // verus!
