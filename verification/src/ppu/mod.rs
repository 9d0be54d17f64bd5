//! The CGB-capable PPU: one mode change per step, scanlines drawn with
//! background, window and sprites.
//!
//! A visible line runs OAM search (80 T-cycles), pixel transfer (172) and
//! HBlank (204); lines 144-153 are VBlank (456 each). The framebuffer holds
//! one 0x00RRGGBB colour per pixel.

pub mod cgb_palette;
pub mod palettes;
pub mod render;
pub mod tile;

use crate::mmu::{lemma_plain_io, Mmu, MmuView};
use palettes::{default_palette, grey, grey_palettes, DmgColorPalettes};
use render::{render_line, window_drawn};
use vstd::prelude::*;

verus! {

pub const LCDC_ADDR: u16 = 0xFF40;
pub const STAT_ADDR: u16 = 0xFF41;
pub const SCY_ADDR: u16 = 0xFF42;
pub const SCX_ADDR: u16 = 0xFF43;
pub const LY_ADDR: u16 = 0xFF44;
pub const LYC_ADDR: u16 = 0xFF45;
pub const DMA_ADDR: u16 = 0xFF46;
pub const BGP_ADDR: u16 = 0xFF47;
pub const OBP0_ADDR: u16 = 0xFF48;
pub const OBP1_ADDR: u16 = 0xFF49;
pub const WY_ADDR: u16 = 0xFF4A;
pub const WX_ADDR: u16 = 0xFF4B;

pub const SCREEN_WIDTH: usize = 160;
pub const SCREEN_HEIGHT: usize = 144;
pub const FRAMEBUFFER_SIZE: usize = 23040;

pub const MODE2_CYCLES: u32 = 80;
pub const MODE3_CYCLES: u32 = 172;
pub const MODE0_CYCLES: u32 = 204;
pub const SCANLINE_CYCLES: u32 = 456;

/// What one step asks of the rest of the machine.
pub struct PpuStepResult {
    pub vblank_irq: bool,
    pub stat_irq: bool,
    /// HBlank began in this step (an H-Blank DMA block is due).
    pub hblank: bool,
}

#[derive(Clone)]
pub struct Ppu {
    pub framebuffer: Vec<u32>,
    bg_color_index: Vec<u8>,
    bg_priority: Vec<bool>,
    cycle: u32,
    mode: u8,
    pub frame_ready: bool,
    window_line: u8,
    pub cgb_mode: bool,
    /// Use the DMG colourisation palettes even in CGB mode.
    pub force_dmg_palette: bool,
    pub dmg_palettes: DmgColorPalettes,
}

/// The PPU's state.
pub struct PpuView {
    pub framebuffer: Seq<u32>,
    /// The background colour index under each pixel (for sprite priority).
    pub bg_color_index: Seq<u8>,
    /// The CGB BG-over-OBJ attribute under each pixel.
    pub bg_priority: Seq<bool>,
    pub cycle: u32,
    pub mode: u8,
    pub frame_ready: bool,
    pub window_line: u8,
    pub cgb_mode: bool,
    pub force_dmg_palette: bool,
    pub dmg: DmgColorPalettes,
}

impl View for Ppu {
    type V = PpuView;

    closed spec fn view(&self) -> PpuView {
        PpuView {
            framebuffer: self.framebuffer@,
            bg_color_index: self.bg_color_index@,
            bg_priority: self.bg_priority@,
            cycle: self.cycle,
            mode: self.mode,
            frame_ready: self.frame_ready,
            window_line: self.window_line,
            cgb_mode: self.cgb_mode,
            force_dmg_palette: self.force_dmg_palette,
            dmg: self.dmg_palettes,
        }
    }
}

impl Ppu {
    pub open spec fn wf(&self) -> bool {
        &&& self@.framebuffer.len() == 23040
        &&& self@.bg_color_index.len() == 23040
        &&& self@.bg_priority.len() == 23040
    }
}

/// The memory with LY set to `v`.
pub open spec fn set_ly(m: MmuView, v: u8) -> MmuView {
    MmuView { io: m.io.update(0x44, v), ..m }
}

/// STAT with its mode bits set to `mode`, and whether STAT asks for an
/// interrupt on entering that mode (bit 3 HBlank, 4 VBlank, 5 OAM).
pub open spec fn stat_update(m: MmuView, mode: u8) -> (MmuView, bool) {
    let stat = (m.io[0x41] & 0xF8) | (mode & 0x03);
    (
        MmuView { io: m.io.update(0x41, stat), ..m },
        if mode == 0 {
            stat & 0x08 != 0
        } else if mode == 1 {
            stat & 0x10 != 0
        } else if mode == 2 {
            stat & 0x20 != 0
        } else {
            false
        },
    )
}

/// STAT's LY == LYC flag for line `ly`, and whether STAT asks for an
/// interrupt on a match (bit 6).
pub open spec fn lyc_check(m: MmuView, ly: u8) -> (MmuView, bool) {
    let stat = m.io[0x41];
    if ly == m.io[0x45] {
        (MmuView { io: m.io.update(0x41, stat | 0x04), ..m }, (stat | 0x04) & 0x40 != 0)
    } else {
        (MmuView { io: m.io.update(0x41, stat & !0x04u8), ..m }, false)
    }
}

pub open spec fn no_irq() -> PpuStepResult {
    PpuStepResult { vblank_irq: false, stat_irq: false, hblank: false }
}

/// The end of HBlank on visible line `ly`: LY advances, the LY == LYC
/// flag is updated, and the next line's OAM search or VBlank begins.
pub open spec fn hblank_end(p: PpuView, m: MmuView, ly: u8) -> (PpuView, MmuView, PpuStepResult) {
    let c = p.cycle;
    let next = (ly + 1) as u8;
    let (m1, i1) = lyc_check(set_ly(m, next), next);
    if next == 144 {
        let (m2, i2) = stat_update(m1, 1);
        (
            PpuView { cycle: (c - 204) as u32, mode: 1, frame_ready: true, ..p },
            m2,
            PpuStepResult { vblank_irq: true, stat_irq: i1 || i2, hblank: false },
        )
    } else {
        let (m2, i2) = stat_update(m1, 2);
        (PpuView { cycle: (c - 204) as u32, mode: 2, ..p }, m2, PpuStepResult { stat_irq: i1 || i2, ..no_irq() })
    }
}

/// A step on visible line `ly` with `p.cycle` accumulated.
pub open spec fn visible_step(p: PpuView, m: MmuView, ly: u8) -> (PpuView, MmuView, PpuStepResult) {
    let c = p.cycle;
    if p.mode == 2 && c >= 80 {
        let (m1, irq) = stat_update(m, 3);
        (PpuView { cycle: (c - 80) as u32, mode: 3, ..p }, m1, PpuStepResult { stat_irq: irq, ..no_irq() })
    } else if p.mode == 3 && c >= 172 {
        let (m1, irq) = stat_update(m, 0);
        (
            render_line(PpuView { cycle: (c - 172) as u32, mode: 0, ..p }, m, ly),
            m1,
            PpuStepResult { stat_irq: irq, hblank: true, ..no_irq() },
        )
    } else if p.mode == 0 && c >= 204 {
        hblank_end(p, m, ly)
    } else {
        (p, m, no_irq())
    }
}

/// A step on VBlank line `ly` with `p.cycle` accumulated.
pub open spec fn vblank_step(p: PpuView, m: MmuView, ly: u8) -> (PpuView, MmuView, PpuStepResult) {
    let c = p.cycle;
    if c >= 456 {
        let next = ly + 1;
        if next > 153 {
            let (m1, irq) = stat_update(set_ly(m, 0), 2);
            (
                PpuView { cycle: (c - 456) as u32, mode: 2, window_line: 0, ..p },
                m1,
                PpuStepResult { stat_irq: irq, ..no_irq() },
            )
        } else {
            let (m1, irq) = lyc_check(set_ly(m, next as u8), next as u8);
            (PpuView { cycle: (c - 456) as u32, ..p }, m1, PpuStepResult { stat_irq: irq, ..no_irq() })
        }
    } else {
        (p, m, no_irq())
    }
}

/// One `Ppu::step`: at most one mode change.
pub open spec fn ppu_step(p: PpuView, m: MmuView, cycles: u32) -> (PpuView, MmuView, PpuStepResult) {
    if m.io[0x40] & 0x80 == 0 {
        (PpuView { cycle: 0, mode: 0, window_line: 0, ..p }, set_ly(m, 0), no_irq())
    } else {
        let q = PpuView { cycle: (p.cycle + cycles) as u32, ..p };
        let ly = m.io[0x44];
        if ly < 144 {
            visible_step(q, m, ly)
        } else {
            vblank_step(q, m, ly)
        }
    }
}

/// The inputs on which a step cannot overflow: the cycle counter, LY past
/// 0xFF, or the window line counter past 0xFF.
pub open spec fn step_defined(p: PpuView, m: MmuView, cycles: u32) -> bool {
    let c = p.cycle + cycles;
    let ly = m.io[0x44];
    m.io[0x40] & 0x80 != 0 ==> {
        &&& c <= u32::MAX
        &&& ly == 0xFF ==> c < 456
        &&& (ly < 144 && p.mode == 3 && c >= 172 && window_drawn(p, m, ly)) ==> p.window_line < 255
    }
}

/// A vector of `n` copies of `v`.
fn filled<T: Copy>(n: usize, v: T) -> (r: Vec<T>)
    ensures
        r@ == Seq::new(n as nat, |i: int| v),
{
    let mut r: Vec<T> = Vec::new();
    while r.len() < n
        invariant
            r.len() <= n,
            forall|i: int| 0 <= i < r.len() ==> r@[i] == v,
        decreases n - r.len(),
    {
        r.push(v);
    }
    assert(r@ =~= Seq::new(n as nat, |i: int| v));
    r
}

/// The PPU at power-on: a white framebuffer, OAM search at cycle 0 of
/// line 0, DMG colours with the grey palettes.
pub open spec fn power_on_ppu() -> PpuView {
    PpuView {
        framebuffer: Seq::new(23040, |i: int| 0x00FFFFFFu32),
        bg_color_index: Seq::new(23040, |i: int| 0u8),
        bg_priority: Seq::new(23040, |i: int| false),
        cycle: 0,
        mode: 2,
        frame_ready: false,
        window_line: 0,
        cgb_mode: false,
        force_dmg_palette: false,
        dmg: grey_palettes(),
    }
}

impl Ppu {
    /// White framebuffer, OAM search, DMG colours with the default palette.
    pub fn new() -> (r: Self)
        ensures
            r.wf(),
            r@ == power_on_ppu(),
            r@.framebuffer == Seq::new(23040, |i: int| 0x00FFFFFFu32),
            r@.bg_color_index == Seq::new(23040, |i: int| 0u8),
            r@.bg_priority == Seq::new(23040, |i: int| false),
            r@.cycle == 0,
            r@.mode == 2,
            !r@.frame_ready,
            r@.window_line == 0,
            !r@.cgb_mode,
            !r@.force_dmg_palette,
            r@.dmg.bg@ == grey()@ && r@.dmg.obj0@ == grey()@ && r@.dmg.obj1@ == grey()@,
    {
        Ppu {
            framebuffer: filled(FRAMEBUFFER_SIZE, 0x00FFFFFFu32),
            bg_color_index: filled(FRAMEBUFFER_SIZE, 0u8),
            bg_priority: filled(FRAMEBUFFER_SIZE, false),
            cycle: 0,
            mode: 2,
            frame_ready: false,
            window_line: 0,
            cgb_mode: false,
            force_dmg_palette: false,
            dmg_palettes: default_palette(),
        }
    }

    /// Advance by `cycles` T-cycles, making at most one mode change: OAM
    /// search to pixel transfer, pixel transfer to HBlank (drawing the line),
    /// HBlank to the next line, and one line per 456 cycles in VBlank. With
    /// the LCD off the PPU resets to line 0 in HBlank.
    pub fn step(&mut self, cycles: u32, mmu: &mut Mmu) -> (r: PpuStepResult)
        requires
            old(self).wf(),
            old(mmu).wf(),
            step_defined(old(self)@, old(mmu)@, cycles),
        ensures
            final(self).wf(),
            final(mmu).wf(),
            (final(self)@, final(mmu)@, r) == ppu_step(old(self)@, old(mmu)@, cycles),
    {
        let mut result = PpuStepResult { vblank_irq: false, stat_irq: false, hblank: false };
        proof {
            lemma_plain_io(mmu@, LCDC_ADDR);
            lemma_plain_io(mmu@, LY_ADDR);
        }
        let lcdc = mmu.read_byte(LCDC_ADDR);
        if lcdc & 0x80 == 0 {
            self.cycle = 0;
            self.mode = 0;
            self.window_line = 0;
            mmu.write_byte(LY_ADDR, 0);
            return result;
        }
        self.cycle = self.cycle + cycles;
        let ly = mmu.read_byte(LY_ADDR);
        if ly < 144 {
            self.step_visible(ly, mmu)
        } else {
            self.step_vblank(ly, mmu)
        }
    }

    fn step_visible(&mut self, ly: u8, mmu: &mut Mmu) -> (r: PpuStepResult)
        requires
            old(self).wf(),
            old(mmu).wf(),
            ly < 144,
            ly == old(mmu)@.io[0x44],
            (old(self)@.mode == 3 && old(self)@.cycle >= 172 && window_drawn(old(self)@, old(mmu)@, ly))
                ==> old(self)@.window_line < 255,
        ensures
            final(self).wf(),
            final(mmu).wf(),
            (final(self)@, final(mmu)@, r) == visible_step(old(self)@, old(mmu)@, ly),
    {
        let mut result = PpuStepResult { vblank_irq: false, stat_irq: false, hblank: false };
        if self.mode == 2 {
            if self.cycle >= MODE2_CYCLES {
                self.cycle = self.cycle - MODE2_CYCLES;
                self.mode = 3;
                self.update_stat(mmu, 3, &mut result);
            }
        } else if self.mode == 3 {
            if self.cycle >= MODE3_CYCLES {
                self.cycle = self.cycle - MODE3_CYCLES;
                self.mode = 0;
                self.render_scanline(ly, mmu);
                result.hblank = true;
                self.update_stat(mmu, 0, &mut result);
            }
        } else if self.mode == 0 {
            if self.cycle >= MODE0_CYCLES {
                self.end_hblank(ly, mmu, &mut result);
            }
        }
        result
    }

    fn end_hblank(&mut self, ly: u8, mmu: &mut Mmu, result: &mut PpuStepResult)
        requires
            old(self).wf(),
            old(mmu).wf(),
            ly < 144,
            old(self)@.mode == 0,
            old(self)@.cycle >= 204,
            *old(result) == no_irq(),
        ensures
            final(self).wf(),
            final(mmu).wf(),
            (final(self)@, final(mmu)@, *final(result)) == hblank_end(old(self)@, old(mmu)@, ly),
    {
        proof {
            lemma_plain_io(mmu@, LY_ADDR);
        }
        self.cycle = self.cycle - MODE0_CYCLES;
        let next_ly = ly + 1;
        mmu.write_byte(LY_ADDR, next_ly);
        self.check_lyc(mmu, next_ly, result);
        if next_ly == 144 {
            self.mode = 1;
            self.frame_ready = true;
            result.vblank_irq = true;
            self.update_stat(mmu, 1, result);
        } else {
            self.mode = 2;
            self.update_stat(mmu, 2, result);
        }
    }

    fn step_vblank(&mut self, ly: u8, mmu: &mut Mmu) -> (r: PpuStepResult)
        requires
            old(self).wf(),
            old(mmu).wf(),
            ly >= 144,
            ly == 0xFF ==> old(self)@.cycle < 456,
        ensures
            final(self).wf(),
            final(mmu).wf(),
            (final(self)@, final(mmu)@, r) == vblank_step(old(self)@, old(mmu)@, ly),
    {
        let mut result = PpuStepResult { vblank_irq: false, stat_irq: false, hblank: false };
        proof {
            lemma_plain_io(mmu@, LY_ADDR);
        }
        if self.cycle >= SCANLINE_CYCLES {
            self.cycle = self.cycle - SCANLINE_CYCLES;
            let next_ly = ly + 1;
            if next_ly > 153 {
                mmu.write_byte(LY_ADDR, 0);
                self.mode = 2;
                self.window_line = 0;
                self.update_stat(mmu, 2, &mut result);
            } else {
                mmu.write_byte(LY_ADDR, next_ly);
                self.check_lyc(mmu, next_ly, &mut result);
            }
        }
        result
    }

    /// Whether `step(cycles, mmu)` is free of overflow (see `step_defined`).
    pub fn step_is_defined(&self, cycles: u32, mmu: &Mmu) -> (r: bool)
        requires
            self.wf(),
            mmu.wf(),
        ensures
            r == step_defined(self@, mmu@, cycles),
    {
        proof {
            lemma_plain_io(mmu@, LCDC_ADDR);
            lemma_plain_io(mmu@, LY_ADDR);
            lemma_plain_io(mmu@, WY_ADDR);
            lemma_plain_io(mmu@, WX_ADDR);
        }
        let lcdc = mmu.read_byte(LCDC_ADDR);
        if lcdc & 0x80 == 0 {
            return true;
        }
        if self.cycle as u64 + cycles as u64 > u32::MAX as u64 {
            return false;
        }
        let c = self.cycle + cycles;
        let ly = mmu.read_byte(LY_ADDR);
        if ly == 0xFF && c >= SCANLINE_CYCLES {
            return false;
        }
        if ly < 144 && self.mode == 3 && c >= MODE3_CYCLES {
            let use_cgb = self.cgb_mode && !self.force_dmg_palette;
            let wy = mmu.read_byte(WY_ADDR);
            let wx = mmu.read_byte(WX_ADDR).wrapping_sub(7);
            let drawn = (use_cgb || lcdc & 0x01 != 0) && lcdc & 0x20 != 0 && ly >= wy && wx < 160;
            if drawn && self.window_line == 255 {
                return false;
            }
        }
        true
    }

    /// Whether the buffers have one entry per pixel (the invariant `wf`).
    pub fn is_consistent(&self) -> (r: bool)
        ensures
            r == self.wf(),
    {
        self.framebuffer.len() == FRAMEBUFFER_SIZE && self.bg_color_index.len() == FRAMEBUFFER_SIZE
            && self.bg_priority.len() == FRAMEBUFFER_SIZE
    }

    /// The line timing state: cycles into the current mode, the mode, and
    /// the window's internal line counter.
    pub fn timing(&self) -> (r: (u32, u8, u8))
        ensures
            r == (self@.cycle, self@.mode, self@.window_line),
    {
        (self.cycle, self.mode, self.window_line)
    }

    /// Copies of the per-pixel background colour indices and BG-over-OBJ
    /// attributes.
    pub fn line_buffers(&self) -> (r: (Vec<u8>, Vec<bool>))
        ensures
            r.0@ == self@.bg_color_index,
            r.1@ == self@.bg_priority,
    {
        (
            vstd::slice::slice_to_vec(self.bg_color_index.as_slice()),
            vstd::slice::slice_to_vec(self.bg_priority.as_slice()),
        )
    }

    /// A PPU holding exactly the given state (the counterpart of `timing`,
    /// `line_buffers` and the public fields).
    pub fn from_parts(
        framebuffer: Vec<u32>,
        bg_color_index: Vec<u8>,
        bg_priority: Vec<bool>,
        timing: (u32, u8, u8),
        frame_ready: bool,
        cgb_mode: bool,
        force_dmg_palette: bool,
        dmg_palettes: DmgColorPalettes,
    ) -> (r: Ppu)
        ensures
            r@ == (PpuView {
                framebuffer: framebuffer@,
                bg_color_index: bg_color_index@,
                bg_priority: bg_priority@,
                cycle: timing.0,
                mode: timing.1,
                frame_ready,
                window_line: timing.2,
                cgb_mode,
                force_dmg_palette,
                dmg: dmg_palettes,
            }),
    {
        Ppu {
            framebuffer,
            bg_color_index,
            bg_priority,
            cycle: timing.0,
            mode: timing.1,
            frame_ready,
            window_line: timing.2,
            cgb_mode,
            force_dmg_palette,
            dmg_palettes,
        }
    }

    /// A copy of the PPU, framebuffer and line state included.
    pub fn snapshot(&self) -> (r: Ppu)
        ensures
            r@ == self@,
    {
        Ppu {
            framebuffer: vstd::slice::slice_to_vec(self.framebuffer.as_slice()),
            bg_color_index: vstd::slice::slice_to_vec(self.bg_color_index.as_slice()),
            bg_priority: vstd::slice::slice_to_vec(self.bg_priority.as_slice()),
            cycle: self.cycle,
            mode: self.mode,
            frame_ready: self.frame_ready,
            window_line: self.window_line,
            cgb_mode: self.cgb_mode,
            force_dmg_palette: self.force_dmg_palette,
            dmg_palettes: self.dmg_palettes,
        }
    }

    /// The finished frame: one 0x00RRGGBB colour per pixel, row by row.
    pub fn framebuffer_ref(&self) -> (r: &Vec<u32>)
        ensures
            r@ == self@.framebuffer,
    {
        &self.framebuffer
    }

    /// Whether a frame was completed (VBlank began) since the flag was last
    /// cleared.
    pub fn is_frame_ready(&self) -> (r: bool)
        ensures
            r == self@.frame_ready,
    {
        self.frame_ready
    }

    /// Clear the frame-completed flag.
    pub fn clear_frame_ready(&mut self)
        requires
            old(self).wf(),
        ensures
            final(self).wf(),
            final(self)@ == (PpuView { frame_ready: false, ..old(self)@ }),
    {
        self.frame_ready = false;
    }

    /// Switch CGB rendering on or off.
    pub fn set_cgb_mode(&mut self, on: bool)
        requires
            old(self).wf(),
        ensures
            final(self).wf(),
            final(self)@ == (PpuView { cgb_mode: on, ..old(self)@ }),
    {
        self.cgb_mode = on;
    }

    /// Use `palettes` to colour DMG graphics.
    pub fn set_dmg_palettes(&mut self, palettes: DmgColorPalettes)
        requires
            old(self).wf(),
        ensures
            final(self).wf(),
            final(self)@ == (PpuView { dmg: palettes, ..old(self)@ }),
    {
        self.dmg_palettes = palettes;
    }

    /// Stop or start forcing the DMG colourisation palettes in CGB mode.
    pub fn set_force_dmg_palette(&mut self, force: bool)
        requires
            old(self).wf(),
        ensures
            final(self).wf(),
            final(self)@ == (PpuView { force_dmg_palette: force, ..old(self)@ }),
    {
        self.force_dmg_palette = force;
    }

    /// Store `mode` in STAT and note a STAT interrupt if STAT asks for one
    /// on entering it.
    fn update_stat(&self, mmu: &mut Mmu, mode: u8, result: &mut PpuStepResult)
        requires
            old(mmu).wf(),
        ensures
            final(mmu).wf(),
            final(mmu)@ == stat_update(old(mmu)@, mode).0,
            *final(result) == (PpuStepResult {
                stat_irq: old(result).stat_irq || stat_update(old(mmu)@, mode).1,
                ..*old(result)
            }),
    {
        proof {
            lemma_plain_io(mmu@, STAT_ADDR);
        }
        let stat = (mmu.read_byte(STAT_ADDR) & 0xF8) | (mode & 0x03);
        mmu.write_byte(STAT_ADDR, stat);
        let irq = if mode == 0 {
            stat & 0x08 != 0
        } else if mode == 1 {
            stat & 0x10 != 0
        } else if mode == 2 {
            stat & 0x20 != 0
        } else {
            false
        };
        if irq {
            result.stat_irq = true;
        }
    }

    /// Set or clear STAT's LY == LYC flag for line `ly`, noting a STAT
    /// interrupt on a match when STAT asks for one.
    fn check_lyc(&self, mmu: &mut Mmu, ly: u8, result: &mut PpuStepResult)
        requires
            old(mmu).wf(),
        ensures
            final(mmu).wf(),
            final(mmu)@ == lyc_check(old(mmu)@, ly).0,
            *final(result) == (PpuStepResult {
                stat_irq: old(result).stat_irq || lyc_check(old(mmu)@, ly).1,
                ..*old(result)
            }),
    {
        proof {
            lemma_plain_io(mmu@, STAT_ADDR);
            lemma_plain_io(mmu@, LYC_ADDR);
        }
        let lyc = mmu.read_byte(LYC_ADDR);
        let mut stat = mmu.read_byte(STAT_ADDR);
        if ly == lyc {
            stat = stat | 0x04;
            if stat & 0x40 != 0 {
                result.stat_irq = true;
            }
        } else {
            stat = stat & !0x04;
        }
        mmu.write_byte(STAT_ADDR, stat);
    }
}

impl Default for Ppu {
    fn default() -> (r: Self)
        ensures
            r.wf(),
    {
        Self::new()
    }
}

} // verus!
