//! Drawing one scanline: background, window and up to ten sprites, with
//! DMG shades mapped through the colourisation palettes or CGB colours
//! taken from palette RAM.

use super::palettes::DmgColorPalettes;
use super::tile::{color_index, color_index_spec, shade, shade_spec, tile_addr, tile_addr_spec};
use super::{Ppu, PpuView, BGP_ADDR, LCDC_ADDR, OBP0_ADDR, OBP1_ADDR, SCREEN_WIDTH, SCX_ADDR, SCY_ADDR, WX_ADDR, WY_ADDR};
use crate::cartridge::byte_or_ff;
use crate::mmu::{lemma_plain_io, Mmu, MmuView};
use vstd::prelude::*;

verus! {

/// A VRAM byte as `Mmu::read_vram_bank` gives it.
pub open spec fn vram_byte(m: MmuView, addr: int, bank: int) -> u8 {
    byte_or_ff(m.vram, bank * 0x2000 + addr % 0x2000)
}

/// Background and window colours, colour indices and BG-over-OBJ priority:
/// the pixel at `row`, `col` of the tile named at `map_addr`. With CGB
/// colours the tile attributes (bank 1) choose the data bank, flips,
/// palette and priority.
pub open spec fn tile_pixel(
    dmg: DmgColorPalettes,
    m: MmuView,
    map_addr: int,
    signed: bool,
    use_cgb: bool,
    row: int,
    col: int,
    bgp: u8,
) -> (u32, u8, bool) {
    let tile_num = vram_byte(m, map_addr, 0);
    let attr: u8 = if use_cgb { vram_byte(m, map_addr, 1) } else { 0 };
    let bank: int = if use_cgb && attr & 0x08 != 0 { 1 } else { 0 };
    let prow = if use_cgb && attr & 0x40 != 0 { 7 - row } else { row };
    let pcol = if use_cgb && attr & 0x20 != 0 { 7 - col } else { col };
    let ta = tile_addr_spec(tile_num, signed);
    let lo = vram_byte(m, ta + prow * 2, bank);
    let hi = vram_byte(m, ta + prow * 2 + 1, bank);
    let cidx = color_index_spec(lo, hi, (7 - pcol) as u8);
    let color = if use_cgb {
        m.bg_palette.color((attr & 0x07) as int, cidx as int)
    } else {
        dmg.bg[shade_spec(bgp, cidx) as int]
    };
    (color, cidx, use_cgb && attr & 0x80 != 0)
}

pub open spec fn map_base(lcdc: u8, bit: u8) -> int {
    if lcdc & bit != 0 {
        0x9C00
    } else {
        0x9800
    }
}

/// Background pixel `x` of line `ly` (scrolled by SCX, SCY).
pub open spec fn bg_pixel(p: PpuView, m: MmuView, ly: u8, lcdc: u8, use_cgb: bool, x: int) -> (u32, u8, bool) {
    let bx = (x + m.io[0x43]) % 256;
    let by = (ly + m.io[0x42]) % 256;
    tile_pixel(
        p.dmg,
        m,
        map_base(lcdc, 0x08) + (by / 8) * 32 + bx / 8,
        lcdc & 0x10 == 0,
        use_cgb,
        by % 8,
        bx % 8,
        m.io[0x47],
    )
}

/// The line buffers with pixels `lo..hi` of line `ly` replaced by `f`.
pub open spec fn paint(p: PpuView, ly: u8, lo: int, hi: int, f: spec_fn(int) -> (u32, u8, bool)) -> PpuView {
    let base = ly * 160;
    PpuView {
        framebuffer: Seq::new(
            p.framebuffer.len(),
            |i: int| if base + lo <= i < base + hi { f(i - base).0 } else { p.framebuffer[i] },
        ),
        bg_color_index: Seq::new(
            p.bg_color_index.len(),
            |i: int| if base + lo <= i < base + hi { f(i - base).1 } else { p.bg_color_index[i] },
        ),
        bg_priority: Seq::new(
            p.bg_priority.len(),
            |i: int| if base + lo <= i < base + hi { f(i - base).2 } else { p.bg_priority[i] },
        ),
        ..p
    }
}

pub open spec fn draw_bg(p: PpuView, m: MmuView, ly: u8, lcdc: u8, use_cgb: bool) -> PpuView {
    paint(p, ly, 0, 160, |x: int| bg_pixel(p, m, ly, lcdc, use_cgb, x))
}

/// The window's left edge on screen: WX - 7, wrapping.
pub open spec fn window_x(m: MmuView) -> int {
    (m.io[0x4B] - 7) % 256
}

/// Window pixel `x` (at or right of the window's left edge), from the
/// window's own line counter.
pub open spec fn window_pixel(p: PpuView, m: MmuView, lcdc: u8, use_cgb: bool, x: int) -> (u32, u8, bool) {
    let wx = x - window_x(m);
    let wy = p.window_line as int;
    tile_pixel(
        p.dmg,
        m,
        map_base(lcdc, 0x40) + (wy / 8) * 32 + wx / 8,
        lcdc & 0x10 == 0,
        use_cgb,
        wy % 8,
        wx % 8,
        m.io[0x47],
    )
}

/// The window over line `ly` (from line WY on); its line counter advances
/// when any of it is on screen.
pub open spec fn draw_window(p: PpuView, m: MmuView, ly: u8, lcdc: u8, use_cgb: bool) -> PpuView {
    if ly < m.io[0x4A] {
        p
    } else {
        let q = paint(p, ly, window_x(m), 160, |x: int| window_pixel(p, m, lcdc, use_cgb, x));
        PpuView { window_line: if window_x(m) < 160 { (p.window_line + 1) as u8 } else { p.window_line }, ..q }
    }
}

pub open spec fn sprite_height_spec(lcdc: u8) -> int {
    if lcdc & 0x04 != 0 {
        16
    } else {
        8
    }
}

/// OAM entry `s`: Y and X on screen, tile, flags.
pub open spec fn oam_entry(m: MmuView, s: int) -> (i32, i32, u8, u8) {
    ((m.oam[4 * s] - 16) as i32, (m.oam[4 * s + 1] - 8) as i32, m.oam[4 * s + 2], m.oam[4 * s + 3])
}

/// The sprites among the first `n` OAM entries that cover line `ly`, at most
/// ten, in OAM order.
pub open spec fn visible_sprites(m: MmuView, ly: u8, h: int, n: nat) -> Seq<(i32, i32, u8, u8)>
    decreases n,
{
    if n == 0 {
        seq![]
    } else {
        let prev = visible_sprites(m, ly, h, (n - 1) as nat);
        let e = oam_entry(m, n - 1);
        if prev.len() < 10 && e.0 <= ly < e.0 + h {
            prev.push(e)
        } else {
            prev
        }
    }
}

/// The two bytes of the sprite's tile row on line `ly`.
pub open spec fn sprite_row_bytes(m: MmuView, ly: u8, lcdc: u8, use_cgb: bool, e: (i32, i32, u8, u8)) -> (u8, u8) {
    let h = sprite_height_spec(lcdc);
    let tile = if h == 16 { e.2 & 0xFE } else { e.2 };
    let sprite_row = ly - e.0;
    let row = if e.3 & 0x40 != 0 { h - 1 - sprite_row } else { sprite_row };
    let bank: int = if use_cgb { ((e.3 >> 3u8) & 0x01) as int } else { 0 };
    let ta = 0x8000 + tile * 16;
    (vram_byte(m, ta + row * 2, bank), vram_byte(m, ta + row * 2 + 1, bank))
}

/// The colour sprite `e` gives screen pixel `x` of line `ly`, if any: none
/// where it is transparent, off its columns, or behind a non-zero
/// background colour (with the background enabled).
pub open spec fn sprite_color(p: PpuView, m: MmuView, ly: u8, lcdc: u8, use_cgb: bool, e: (i32, i32, u8, u8), x: int) -> Option<u32> {
    let col = x - e.1;
    let flags = e.3;
    if !(0 <= col < 8) {
        None
    } else {
        let (lo, hi) = sprite_row_bytes(m, ly, lcdc, use_cgb, e);
        let bit = if flags & 0x20 != 0 { col } else { 7 - col };
        let cidx = color_index_spec(lo, hi, bit as u8);
        let bg_color = p.bg_color_index[ly * 160 + x];
        let hidden = lcdc & 0x01 != 0 && ((flags & 0x80 != 0 && bg_color != 0) || (use_cgb
            && p.bg_priority[ly * 160 + x] && bg_color != 0));
        if cidx == 0 || hidden {
            None
        } else if use_cgb {
            Some(m.obj_palette.color((flags & 0x07) as int, cidx as int))
        } else if flags & 0x10 != 0 {
            Some(p.dmg.obj1[shade_spec(m.io[0x49], cidx) as int])
        } else {
            Some(p.dmg.obj0[shade_spec(m.io[0x48], cidx) as int])
        }
    }
}

/// A vertically flipped sprite (flag bit 6) shows its rows bottom up: on
/// the line `r` rows into the sprite it takes the tile row that the same
/// sprite unflipped shows `h - 1 - r` rows in (`h` its height, 8 or 16).
pub proof fn lemma_sprite_y_flip(m: MmuView, ly: u8, ly2: u8, lcdc: u8, use_cgb: bool, e: (i32, i32, u8, u8))
    requires
        e.3 & 0x40 != 0,
        (ly - e.0) + (ly2 - e.0) == sprite_height_spec(lcdc) - 1,
    ensures
        sprite_row_bytes(m, ly, lcdc, use_cgb, e) == sprite_row_bytes(m, ly2, lcdc, use_cgb, (e.0, e.1, e.2, e.3 & 0xBF)),
{
    let f = e.3;
    assert((f & 0xBF) & 0x40 == 0 && ((f & 0xBF) >> 3u8) & 0x01 == (f >> 3u8) & 0x01) by (bit_vector);
}

/// Column `col` (0-7) of sprite `e` takes its colour index from bit `col` of
/// the tile row when the sprite is flipped horizontally (flag bit 5), and
/// from bit `7 - col` otherwise: index `2 * hi_bit + lo_bit`. Index 0 is
/// transparent; over background colour 0 any other index shows, in the
/// sprite's CGB palette or through OBP0 / OBP1 (flag bit 4) on a DMG.
pub proof fn lemma_sprite_pixel(p: PpuView, m: MmuView, ly: u8, lcdc: u8, use_cgb: bool, e: (i32, i32, u8, u8), col: int)
    requires
        0 <= col < 8,
    ensures
        ({
            let (lo, hi) = sprite_row_bytes(m, ly, lcdc, use_cgb, e);
            let b: u8 = if e.3 & 0x20 != 0 { col as u8 } else { (7 - col) as u8 };
            let c: u8 = (((hi >> b) & 1) * 2 + ((lo >> b) & 1)) as u8;
            let x = e.1 + col;
            let shown = p.bg_color_index[ly * 160 + x] == 0;
            &&& c == 0 ==> sprite_color(p, m, ly, lcdc, use_cgb, e, x) is None
            &&& (c != 0 && shown && use_cgb) ==> sprite_color(p, m, ly, lcdc, use_cgb, e, x) == Some(
                m.obj_palette.color((e.3 & 0x07) as int, c as int),
            )
            &&& (c != 0 && shown && !use_cgb && e.3 & 0x10 == 0) ==> sprite_color(p, m, ly, lcdc, use_cgb, e, x)
                == Some(p.dmg.obj0[shade_spec(m.io[0x48], c) as int])
            &&& (c != 0 && shown && !use_cgb && e.3 & 0x10 != 0) ==> sprite_color(p, m, ly, lcdc, use_cgb, e, x)
                == Some(p.dmg.obj1[shade_spec(m.io[0x49], c) as int])
        }),
{
    let (lo, hi) = sprite_row_bytes(m, ly, lcdc, use_cgb, e);
    let b: u8 = if e.3 & 0x20 != 0 { col as u8 } else { (7 - col) as u8 };
    assert((hi >> b) % 2 == (hi >> b) & 1 && (lo >> b) % 2 == (lo >> b) & 1) by (bit_vector);
}

/// `fb` with sprite `e` drawn over line `ly`.
pub open spec fn draw_sprite(fb: Seq<u32>, p: PpuView, m: MmuView, ly: u8, lcdc: u8, use_cgb: bool, e: (i32, i32, u8, u8)) -> Seq<u32> {
    let base = ly * 160;
    Seq::new(
        fb.len(),
        |i: int|
            if base <= i < base + 160 && sprite_color(p, m, ly, lcdc, use_cgb, e, i - base) is Some {
                sprite_color(p, m, ly, lcdc, use_cgb, e, i - base)->0
            } else {
                fb[i]
            },
    )
}

/// The framebuffer after drawing `vis[j..]` from the last to `vis[j]`, so
/// that earlier sprites end up on top.
pub open spec fn draw_sprites_from(p: PpuView, m: MmuView, ly: u8, lcdc: u8, use_cgb: bool, vis: Seq<(i32, i32, u8, u8)>, j: int) -> Seq<u32>
    decreases vis.len() - j,
{
    if j < 0 || j >= vis.len() {
        p.framebuffer
    } else {
        draw_sprite(draw_sprites_from(p, m, ly, lcdc, use_cgb, vis, j + 1), p, m, ly, lcdc, use_cgb, vis[j])
    }
}

/// Line `ly` drawn: priority buffers cleared, background and window (when
/// enabled, or always with CGB colours), then sprites.
pub open spec fn render_line(p: PpuView, m: MmuView, ly: u8) -> PpuView {
    let lcdc = m.io[0x40];
    let use_cgb = p.cgb_mode && !p.force_dmg_palette;
    let p0 = paint(p, ly, 0, 160, |x: int| (p.framebuffer[ly * 160 + x], 0u8, false));
    let p1 = if use_cgb || lcdc & 0x01 != 0 {
        let q = draw_bg(p0, m, ly, lcdc, use_cgb);
        if lcdc & 0x20 != 0 {
            draw_window(q, m, ly, lcdc, use_cgb)
        } else {
            q
        }
    } else {
        p0
    };
    if lcdc & 0x02 != 0 {
        PpuView {
            framebuffer: draw_sprites_from(p1, m, ly, lcdc, use_cgb, visible_sprites(m, ly, sprite_height_spec(lcdc), 40), 0),
            ..p1
        }
    } else {
        p1
    }
}

/// Drawing line `ly` advances the window counter.
pub open spec fn window_drawn(p: PpuView, m: MmuView, ly: u8) -> bool {
    let lcdc = m.io[0x40];
    &&& (p.cgb_mode && !p.force_dmg_palette) || lcdc & 0x01 != 0
    &&& lcdc & 0x20 != 0
    &&& ly >= m.io[0x4A]
    &&& window_x(m) < 160
}

impl Ppu {
    /// One background or window pixel (see `tile_pixel`).
    fn tile_pixel(&self, mmu: &Mmu, map_addr: u16, signed: bool, use_cgb: bool, row: usize, col: usize, bgp: u8) -> (r: (
        u32,
        u8,
        bool,
    ))
        requires
            mmu.wf(),
            row < 8,
            col < 8,
        ensures
            r == tile_pixel(self@.dmg, mmu@, map_addr as int, signed, use_cgb, row as int, col as int, bgp),
    {
        let tile_num = mmu.read_vram_bank(map_addr, 0);
        let tile_attr = if use_cgb { mmu.read_vram_bank(map_addr, 1) } else { 0 };
        let vram_bank: u8 = if use_cgb && tile_attr & 0x08 != 0 { 1 } else { 0 };
        let y_flip = use_cgb && tile_attr & 0x40 != 0;
        let x_flip = use_cgb && tile_attr & 0x20 != 0;
        let ta = tile_addr(tile_num, signed);
        let pixel_row = if y_flip { 7 - row } else { row };
        let pixel_col = if x_flip { 7 - col } else { col };
        let lo = mmu.read_vram_bank(ta + (pixel_row * 2) as u16, vram_bank);
        let hi = mmu.read_vram_bank(ta + (pixel_row * 2 + 1) as u16, vram_bank);
        let cidx = color_index(lo, hi, (7 - pixel_col) as u8);
        let color = if use_cgb {
            proof {
                crate::bits::lemma_u8(tile_attr);
            }
            mmu.bg_palette_color((tile_attr & 0x07) as usize, cidx as usize)
        } else {
            let s = shade(bgp, cidx);
            self.dmg_palettes.bg[s as usize]
        };
        (color, cidx, use_cgb && tile_attr & 0x80 != 0)
    }

    /// Background over all of line `ly`.
    pub(super) fn render_bg(&mut self, ly: u8, lcdc: u8, mmu: &Mmu, use_cgb: bool)
        requires
            old(self).wf(),
            mmu.wf(),
            ly < 144,
            lcdc == mmu@.io[0x40],
        ensures
            final(self).wf(),
            final(self)@ == draw_bg(old(self)@, mmu@, ly, lcdc, use_cgb),
    {
        proof {
            lemma_plain_io(mmu@, SCX_ADDR);
            lemma_plain_io(mmu@, SCY_ADDR);
            lemma_plain_io(mmu@, BGP_ADDR);
        }
        let scx = mmu.read_byte(SCX_ADDR);
        let scy = mmu.read_byte(SCY_ADDR);
        let bgp = mmu.read_byte(BGP_ADDR);
        let tile_map_base: u16 = if lcdc & 0x08 != 0 { 0x9C00 } else { 0x9800 };
        let signed_tile = lcdc & 0x10 == 0;
        let base = ly as usize * SCREEN_WIDTH;
        let bg_y = (ly as usize + scy as usize) % 256;
        let ghost p0 = self@;
        let ghost m = mmu@;
        let ghost f = |x: int| bg_pixel(p0, m, ly, lcdc, use_cgb, x);
        let mut x: usize = 0;
        proof {
            let q = paint(p0, ly, 0, 0, f);
            assert(q.framebuffer =~= p0.framebuffer);
            assert(q.bg_color_index =~= p0.bg_color_index);
            assert(q.bg_priority =~= p0.bg_priority);
        }
        while x < SCREEN_WIDTH
            invariant
                mmu@ == m,
                m.wf(),
                ly < 144,
                base == ly * 160,
                x <= 160,
                lcdc == m.io[0x40],
                scx == m.io[0x43],
                scy == m.io[0x42],
                bgp == m.io[0x47],
                tile_map_base == map_base(lcdc, 0x08),
                signed_tile == (lcdc & 0x10 == 0),
                bg_y == (ly + scy) % 256,
                self.wf(),
                self@.dmg == p0.dmg,
                f == (|x: int| bg_pixel(p0, m, ly, lcdc, use_cgb, x)),
                self@ == paint(p0, ly, 0, x as int, f),
            decreases 160 - x,
        {
            let bg_x = (x + scx as usize) % 256;
            let map_addr = tile_map_base + ((bg_y / 8) * 32 + bg_x / 8) as u16;
            let (color, cidx, priority) = self.tile_pixel(mmu, map_addr, signed_tile, use_cgb, bg_y % 8, bg_x % 8, bgp);
            proof {
                let bx = (x + m.io[0x43]) % 256;
                let by = (ly + m.io[0x42]) % 256;
                assert(bg_x == bx);
                assert(map_addr as int == map_base(lcdc, 0x08) + (by / 8) * 32 + bx / 8);
                assert(bg_pixel(p0, m, ly, lcdc, use_cgb, x as int) == tile_pixel(p0.dmg, m, map_addr as int, lcdc & 0x10 == 0, use_cgb, (bg_y % 8) as int, (bg_x % 8) as int, bgp));
                assert((color, cidx, priority) == f(x as int));
            }
            self.framebuffer.set(base + x, color);
            self.bg_color_index.set(base + x, cidx);
            self.bg_priority.set(base + x, priority);
            x = x + 1;
            proof {
                assert(self@.framebuffer =~= paint(p0, ly, 0, x as int, f).framebuffer);
                assert(self@.bg_color_index =~= paint(p0, ly, 0, x as int, f).bg_color_index);
                assert(self@.bg_priority =~= paint(p0, ly, 0, x as int, f).bg_priority);
            }
        }
    }
}

/// Every sprite `visible_sprites` lists covers line `ly`, and there are at
/// most ten.
pub proof fn lemma_visible_on_line(m: MmuView, ly: u8, h: int, n: nat)
    ensures
        visible_sprites(m, ly, h, n).len() <= 10,
        forall|k: int|
            0 <= k < visible_sprites(m, ly, h, n).len() ==> #[trigger] visible_sprites(m, ly, h, n)[k].0 <= ly
                < visible_sprites(m, ly, h, n)[k].0 + h && -8 <= visible_sprites(m, ly, h, n)[k].1 <= 247,
    decreases n,
{
    if n > 0 {
        lemma_visible_on_line(m, ly, h, (n - 1) as nat);
    }
}

impl Ppu {
    /// The window over line `ly`.
    pub(super) fn render_window(&mut self, ly: u8, lcdc: u8, mmu: &Mmu, use_cgb: bool)
        requires
            old(self).wf(),
            mmu.wf(),
            ly < 144,
            lcdc == mmu@.io[0x40],
            window_x(mmu@) < 160 && ly >= mmu@.io[0x4A] ==> old(self)@.window_line < 255,
        ensures
            final(self).wf(),
            final(self)@ == draw_window(old(self)@, mmu@, ly, lcdc, use_cgb),
    {
        proof {
            lemma_plain_io(mmu@, WY_ADDR);
            lemma_plain_io(mmu@, WX_ADDR);
            lemma_plain_io(mmu@, BGP_ADDR);
        }
        let wy = mmu.read_byte(WY_ADDR);
        let wx = mmu.read_byte(WX_ADDR).wrapping_sub(7);
        if ly < wy {
            return;
        }
        let base = ly as usize * SCREEN_WIDTH;
        let tile_map_base: u16 = if lcdc & 0x40 != 0 { 0x9C00 } else { 0x9800 };
        let signed_tile = lcdc & 0x10 == 0;
        let bgp = mmu.read_byte(BGP_ADDR);
        let win_y = self.window_line as usize;
        let ghost p0 = self@;
        let ghost m = mmu@;
        let ghost f = |x: int| window_pixel(p0, m, lcdc, use_cgb, x);
        let mut rendered = false;
        let mut x: usize = 0;
        proof {
            let q = paint(p0, ly, wx as int, 0, f);
            assert(q.framebuffer =~= p0.framebuffer);
            assert(q.bg_color_index =~= p0.bg_color_index);
            assert(q.bg_priority =~= p0.bg_priority);
        }
        while x < SCREEN_WIDTH
            invariant
                mmu@ == m,
                m.wf(),
                ly < 144,
                base == ly * 160,
                x <= 160,
                wx == window_x(m),
                bgp == m.io[0x47],
                tile_map_base == map_base(lcdc, 0x40),
                signed_tile == (lcdc & 0x10 == 0),
                win_y == p0.window_line,
                self.wf(),
                self@.dmg == p0.dmg,
                f == (|x: int| window_pixel(p0, m, lcdc, use_cgb, x)),
                self@ == paint(p0, ly, wx as int, x as int, f),
                rendered == (wx < x),
            decreases 160 - x,
        {
            if (x as u8) >= wx {
                rendered = true;
                let win_x = x - wx as usize;
                let map_addr = tile_map_base + ((win_y / 8) * 32 + win_x / 8) as u16;
                let (color, cidx, priority) = self.tile_pixel(
                    mmu,
                    map_addr,
                    signed_tile,
                    use_cgb,
                    win_y % 8,
                    win_x % 8,
                    bgp,
                );
                proof {
                    assert((color, cidx, priority) == f(x as int));
                }
                self.framebuffer.set(base + x, color);
                self.bg_color_index.set(base + x, cidx);
                self.bg_priority.set(base + x, priority);
            }
            x = x + 1;
            proof {
                assert(self@.framebuffer =~= paint(p0, ly, wx as int, x as int, f).framebuffer);
                assert(self@.bg_color_index =~= paint(p0, ly, wx as int, x as int, f).bg_color_index);
                assert(self@.bg_priority =~= paint(p0, ly, wx as int, x as int, f).bg_priority);
            }
        }
        if rendered {
            self.window_line = self.window_line + 1;
        }
    }

    /// Sprite `e` drawn over line `ly`.
    fn draw_sprite(&mut self, mmu: &Mmu, ly: u8, lcdc: u8, use_cgb: bool, e: (i32, i32, u8, u8), obp0: u8, obp1: u8)
        requires
            old(self).wf(),
            mmu.wf(),
            ly < 144,
            lcdc == mmu@.io[0x40],
            obp0 == mmu@.io[0x48],
            obp1 == mmu@.io[0x49],
            e.0 <= ly < e.0 + sprite_height_spec(lcdc),
            -8 <= e.1 <= 247,
        ensures
            final(self).wf(),
            final(self)@ == (PpuView {
                framebuffer: draw_sprite(old(self)@.framebuffer, old(self)@, mmu@, ly, lcdc, use_cgb, e),
                ..old(self)@
            }),
    {
        let (sy, sx, tile0, flags) = e;
        let sprite_height: i32 = if lcdc & 0x04 != 0 { 16 } else { 8 };
        let y_flip = flags & 0x40 != 0;
        let x_flip = flags & 0x20 != 0;
        let behind = flags & 0x80 != 0;
        let bg_enabled = lcdc & 0x01 != 0;
        let tile = if sprite_height == 16 { tile0 & 0xFE } else { tile0 };
        let sprite_row = (ly as i32 - sy) as usize;
        let row = if y_flip { sprite_height as usize - 1 - sprite_row } else { sprite_row };
        let vram_bank: u8 = if use_cgb { (flags >> 3) & 0x01 } else { 0 };
        let ta = 0x8000u16 + tile as u16 * 16;
        let lo = mmu.read_vram_bank(ta + (row * 2) as u16, vram_bank);
        let hi = mmu.read_vram_bank(ta + (row * 2 + 1) as u16, vram_bank);
        let base = ly as usize * SCREEN_WIDTH;
        let ghost p0 = self@;
        let ghost m = mmu@;
        proof {
            assert((lo, hi) == sprite_row_bytes(m, ly, lcdc, use_cgb, e));
            assert(self.framebuffer@ =~= Seq::new(
                23040,
                |i: int|
                    if base <= i < base + 160 && i - base < sx + 0 && sprite_color(p0, m, ly, lcdc, use_cgb, e, i - base) is Some {
                        sprite_color(p0, m, ly, lcdc, use_cgb, e, i - base)->0
                    } else {
                        p0.framebuffer[i]
                    },
            ));
        }
        let mut col: i32 = 0;
        while col < 8
            invariant
                mmu@ == m,
                m.wf(),
                ly < 144,
                base == ly * 160,
                0 <= col <= 8,
                -8 <= sx <= 247,
                e == (sy, sx, tile0, flags),
                lcdc == m.io[0x40],
                obp0 == m.io[0x48],
                obp1 == m.io[0x49],
                (lo, hi) == sprite_row_bytes(m, ly, lcdc, use_cgb, e),
                x_flip == (flags & 0x20 != 0),
                behind == (flags & 0x80 != 0),
                bg_enabled == (lcdc & 0x01 != 0),
                self.wf(),
                self@ == (PpuView { framebuffer: self@.framebuffer, ..p0 }),
                self.framebuffer@ == Seq::new(
                    23040,
                    |i: int|
                        if base <= i < base + 160 && i - base < sx + col && sprite_color(p0, m, ly, lcdc, use_cgb, e, i - base) is Some {
                            sprite_color(p0, m, ly, lcdc, use_cgb, e, i - base)->0
                        } else {
                            p0.framebuffer[i]
                        },
                ),
            decreases 8 - col,
        {
            let screen_x = sx + col;
            if screen_x >= 0 && screen_x < 160 {
                let sxu = screen_x as usize;
                let bit: u8 = if x_flip { col as u8 } else { 7 - col as u8 };
                let cidx = color_index(lo, hi, bit);
                if cidx != 0 {
                    let bg_color = self.bg_color_index[base + sxu];
                    let hidden = bg_enabled && ((behind && bg_color != 0) || (use_cgb && self.bg_priority[base + sxu]
                        && bg_color != 0));
                    if !hidden {
                        let color = if use_cgb {
                            proof {
                                crate::bits::lemma_u8(flags);
                            }
                            mmu.obj_palette_color((flags & 0x07) as usize, cidx as usize)
                        } else if flags & 0x10 != 0 {
                            let s = shade(obp1, cidx);
                            self.dmg_palettes.obj1[s as usize]
                        } else {
                            let s = shade(obp0, cidx);
                            self.dmg_palettes.obj0[s as usize]
                        };
                        proof {
                            assert(sprite_color(p0, m, ly, lcdc, use_cgb, e, screen_x as int) == Some(color));
                        }
                        self.framebuffer.set(base + sxu, color);
                    } else {
                        proof {
                            assert(sprite_color(p0, m, ly, lcdc, use_cgb, e, screen_x as int) is None);
                        }
                    }
                } else {
                    proof {
                        assert(sprite_color(p0, m, ly, lcdc, use_cgb, e, screen_x as int) is None);
                    }
                }
            }
            col = col + 1;
            proof {
                assert(self.framebuffer@ =~= Seq::new(
                    23040,
                    |i: int|
                        if base <= i < base + 160 && i - base < sx + col && sprite_color(p0, m, ly, lcdc, use_cgb, e, i - base) is Some {
                            sprite_color(p0, m, ly, lcdc, use_cgb, e, i - base)->0
                        } else {
                            p0.framebuffer[i]
                        },
                ));
            }
        }
        proof {
            assert(self.framebuffer@ =~= draw_sprite(p0.framebuffer, p0, m, ly, lcdc, use_cgb, e));
        }
    }

    /// Up to ten sprites over line `ly`, the first in OAM on top.
    pub(super) fn render_sprites(&mut self, ly: u8, lcdc: u8, mmu: &Mmu, use_cgb: bool)
        requires
            old(self).wf(),
            mmu.wf(),
            ly < 144,
            lcdc == mmu@.io[0x40],
        ensures
            final(self).wf(),
            final(self)@ == (PpuView {
                framebuffer: draw_sprites_from(
                    old(self)@,
                    mmu@,
                    ly,
                    lcdc,
                    use_cgb,
                    visible_sprites(mmu@, ly, sprite_height_spec(lcdc), 40),
                    0,
                ),
                ..old(self)@
            }),
    {
        proof {
            lemma_plain_io(mmu@, OBP0_ADDR);
            lemma_plain_io(mmu@, OBP1_ADDR);
        }
        let sprite_height: i32 = if lcdc & 0x04 != 0 { 16 } else { 8 };
        let obp0 = mmu.read_byte(OBP0_ADDR);
        let obp1 = mmu.read_byte(OBP1_ADDR);
        let ghost m = mmu@;
        let ghost h = sprite_height_spec(lcdc);
        let mut vis: Vec<(i32, i32, u8, u8)> = Vec::new();
        let mut s: usize = 0;
        while s < 40
            invariant
                mmu@ == m,
                m.wf(),
                s <= 40,
                sprite_height == h,
                h == sprite_height_spec(lcdc),
                lcdc == m.io[0x40],
                sprite_height == 8 || sprite_height == 16,
                vis@ == visible_sprites(m, ly, h, s as nat),
            decreases 40 - s,
        {
            proof {
                lemma_visible_on_line(m, ly, h, s as nat);
            }
            if vis.len() < 10 {
                let oam_base = s * 4;
                let sy = mmu.read_oam(oam_base) as i32 - 16;
                let sx = mmu.read_oam(oam_base + 1) as i32 - 8;
                let tile = mmu.read_oam(oam_base + 2);
                let flags = mmu.read_oam(oam_base + 3);
                let ly_i = ly as i32;
                if ly_i >= sy && ly_i < sy + sprite_height {
                    vis.push((sy, sx, tile, flags));
                }
            }
            s = s + 1;
        }
        let ghost p0 = self@;
        proof {
            lemma_visible_on_line(m, ly, h, 40);
        }
        let mut j = vis.len();
        while j > 0
            invariant
                mmu@ == m,
                m.wf(),
                ly < 144,
                lcdc == m.io[0x40],
                obp0 == m.io[0x48],
                obp1 == m.io[0x49],
                vis@ == visible_sprites(m, ly, h, 40),
                h == sprite_height_spec(lcdc),
                forall|k: int| 0 <= k < vis@.len() ==> #[trigger] vis@[k].0 <= ly < vis@[k].0 + h && -8 <= vis@[k].1 <= 247,
                j <= vis@.len(),
                self.wf(),
                self@ == (PpuView { framebuffer: draw_sprites_from(p0, m, ly, lcdc, use_cgb, vis@, j as int), ..p0 }),
            decreases j,
        {
            j = j - 1;
            let e = vis[j];
            let ghost before = self@;
            self.draw_sprite(mmu, ly, lcdc, use_cgb, e, obp0, obp1);
            proof {
                let prev = draw_sprites_from(p0, m, ly, lcdc, use_cgb, vis@, j + 1);
                assert(draw_sprite(prev, before, m, ly, lcdc, use_cgb, e) =~= draw_sprite(prev, p0, m, ly, lcdc, use_cgb, e));
            }
        }
    }

    /// Draw line `ly`.
    pub(super) fn render_scanline(&mut self, ly: u8, mmu: &Mmu)
        requires
            old(self).wf(),
            mmu.wf(),
            ly < 144,
            window_drawn(old(self)@, mmu@, ly) ==> old(self)@.window_line < 255,
        ensures
            final(self).wf(),
            final(self)@ == render_line(old(self)@, mmu@, ly),
    {
        proof {
            lemma_plain_io(mmu@, LCDC_ADDR);
        }
        let lcdc = mmu.read_byte(LCDC_ADDR);
        let base = ly as usize * SCREEN_WIDTH;
        let ghost p0 = self@;
        let ghost g = |x: int| (p0.framebuffer[ly * 160 + x], 0u8, false);
        let mut i: usize = 0;
        proof {
            let q = paint(p0, ly, 0, 0, g);
            assert(q.framebuffer =~= p0.framebuffer);
            assert(q.bg_color_index =~= p0.bg_color_index);
            assert(q.bg_priority =~= p0.bg_priority);
        }
        while i < SCREEN_WIDTH
            invariant
                base == ly * 160,
                ly < 144,
                i <= 160,
                self.wf(),
                g == (|x: int| (p0.framebuffer[ly * 160 + x], 0u8, false)),
                self@ == paint(p0, ly, 0, i as int, g),
            decreases 160 - i,
        {
            self.bg_color_index.set(base + i, 0);
            self.bg_priority.set(base + i, false);
            i = i + 1;
            proof {
                assert(self@.framebuffer =~= paint(p0, ly, 0, i as int, g).framebuffer);
                assert(self@.bg_color_index =~= paint(p0, ly, 0, i as int, g).bg_color_index);
                assert(self@.bg_priority =~= paint(p0, ly, 0, i as int, g).bg_priority);
            }
        }
        let use_cgb = self.cgb_mode && !self.force_dmg_palette;
        if use_cgb || lcdc & 0x01 != 0 {
            self.render_bg(ly, lcdc, mmu, use_cgb);
            if lcdc & 0x20 != 0 {
                self.render_window(ly, lcdc, mmu, use_cgb);
            }
        }
        if lcdc & 0x02 != 0 {
            self.render_sprites(ly, lcdc, mmu, use_cgb);
        }
    }
}

} // verus!
