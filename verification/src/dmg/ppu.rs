//! The DMG core's scanline PPU.
//!
//! Each visible line runs OAM search (80 T-cycles), pixel transfer (172)
//! and HBlank (204); lines 144-153 are VBlank, 456 T-cycles each. A line is
//! drawn into the framebuffer (one shade 0-3 per pixel) when pixel transfer
//! ends.

use super::mmu::{lemma_io, lemma_vram_read, Mmu, MmuView};
use crate::ppu::tile::{color_index, color_index_spec, shade, shade_spec, tile_addr, tile_addr_spec};
use vstd::prelude::*;

verus! {

pub const SCREEN_WIDTH: usize = 160;
pub const SCREEN_HEIGHT: usize = 144;
pub const FRAMEBUFFER_SIZE: usize = 23040;

pub const CYCLES_OAM: u32 = 80;
pub const CYCLES_TRANSFER: u32 = 172;
pub const CYCLES_HBLANK: u32 = 204;
pub const CYCLES_PER_LINE: u32 = 456;

pub const VBLANK_START: u8 = 144;
pub const TOTAL_LINES: u8 = 154;

pub const LCDC_ADDR: u16 = 0xFF40;
pub const STAT_ADDR: u16 = 0xFF41;
pub const SCY_ADDR: u16 = 0xFF42;
pub const SCX_ADDR: u16 = 0xFF43;
pub const LY_ADDR: u16 = 0xFF44;
pub const LYC_ADDR: u16 = 0xFF45;
pub const BGP_ADDR: u16 = 0xFF47;

pub const MODE_HBLANK: u8 = 0;
pub const MODE_VBLANK: u8 = 1;
pub const MODE_OAM: u8 = 2;
pub const MODE_TRANSFER: u8 = 3;

/// The interrupts one `Ppu::step` asks for.
#[derive(Debug, Clone)]
pub struct PpuResult {
    pub vblank_irq: bool,
    pub stat_irq: bool,
}

impl Default for PpuResult {
    fn default() -> (r: Self)
        ensures
            !r.vblank_irq && !r.stat_irq,
    {
        PpuResult { vblank_irq: false, stat_irq: false }
    }
}

pub struct Ppu {
    /// One shade (0-3) per pixel, row-major.
    pub framebuffer: Vec<u8>,
    cycle: u32,
    mode: u8,
    /// Set when VBlank begins, cleared when the next frame starts.
    pub frame_ready: bool,
}

/// The PPU's state.
pub struct PpuView {
    pub framebuffer: Seq<u8>,
    pub cycle: u32,
    pub mode: u8,
    pub frame_ready: bool,
}

impl View for Ppu {
    type V = PpuView;

    closed spec fn view(&self) -> PpuView {
        PpuView {
            framebuffer: self.framebuffer@,
            cycle: self.cycle,
            mode: self.mode,
            frame_ready: self.frame_ready,
        }
    }
}

/// The memory with LY set to `v`.
pub open spec fn set_ly(m: MmuView, v: u8) -> MmuView {
    MmuView { io: m.io.update(0x44, v), ..m }
}

/// STAT asks for an interrupt on LY == LYC, and they are equal.
pub open spec fn coincidence_irq(m: MmuView) -> bool {
    m.io[0x44] == m.io[0x45] && m.io[0x41] & 0x40 != 0
}

/// The shade of background pixel `px` on line `ly`.
pub open spec fn bg_shade(m: MmuView, lcdc: u8, ly: u8, px: u8) -> u8 {
    let y = ((ly + m.io[0x42]) % 256) as u8;
    let x = ((px + m.io[0x43]) % 256) as u8;
    let map_base: int = if lcdc & 0x08 != 0 { 0x9C00 } else { 0x9800 };
    let tile_num = m.vram[map_base - 0x8000 + (y / 8) * 32 + x / 8];
    let ta = tile_addr_spec(tile_num, lcdc & 0x10 == 0) - 0x8000;
    let row = (y % 8) * 2;
    shade_spec(m.io[0x47], color_index_spec(m.vram[ta + row], m.vram[ta + row + 1], (7 - x % 8) as u8))
}

/// The framebuffer after line `ly` is drawn (only when LCDC enables the
/// background).
pub open spec fn render_line(fb: Seq<u8>, ly: u8, m: MmuView) -> Seq<u8> {
    let lcdc = m.io[0x40];
    if lcdc & 0x01 != 0 {
        Seq::new(
            fb.len(),
            |i: int|
                if ly * 160 <= i < ly * 160 + 160 {
                    bg_shade(m, lcdc, ly, (i - ly * 160) as u8)
                } else {
                    fb[i]
                },
        )
    } else {
        fb
    }
}

/// One mode change, if the accumulated cycles allow one: the new PPU, the
/// new memory, and whether it asks for a VBlank and a STAT interrupt.
pub open spec fn transition(p: PpuView, m: MmuView) -> Option<(PpuView, MmuView, bool, bool)> {
    let ly = m.io[0x44];
    let stat = m.io[0x41];
    if ly < 144 {
        if p.mode == 2 && p.cycle >= 80 {
            Some((PpuView { cycle: (p.cycle - 80) as u32, mode: 3, ..p }, m, false, false))
        } else if p.mode == 3 && p.cycle >= 172 {
            Some(
                (
                    PpuView {
                        cycle: (p.cycle - 172) as u32,
                        mode: 0,
                        framebuffer: render_line(p.framebuffer, ly, m),
                        ..p
                    },
                    m,
                    false,
                    stat & 0x08 != 0,
                ),
            )
        } else if p.mode == 0 && p.cycle >= 204 {
            let next = (ly + 1) as u8;
            let m1 = set_ly(m, next);
            if next >= 144 {
                Some(
                    (
                        PpuView { cycle: (p.cycle - 204) as u32, mode: 1, frame_ready: true, ..p },
                        m1,
                        true,
                        stat & 0x10 != 0 || coincidence_irq(m1),
                    ),
                )
            } else {
                Some(
                    (
                        PpuView { cycle: (p.cycle - 204) as u32, mode: 2, ..p },
                        m1,
                        false,
                        stat & 0x20 != 0 || coincidence_irq(m1),
                    ),
                )
            }
        } else {
            None
        }
    } else if p.cycle >= 456 {
        let next = ly + 1;
        if next >= 154 {
            let m1 = set_ly(m, 0);
            Some(
                (
                    PpuView { cycle: (p.cycle - 456) as u32, mode: 2, frame_ready: false, ..p },
                    m1,
                    false,
                    stat & 0x20 != 0 || coincidence_irq(m1),
                ),
            )
        } else {
            let m1 = set_ly(m, next as u8);
            Some((PpuView { cycle: (p.cycle - 456) as u32, ..p }, m1, false, coincidence_irq(m1)))
        }
    } else {
        None
    }
}

/// Every mode change the accumulated cycles allow, in order, with the
/// interrupt requests gathered.
pub open spec fn run(p: PpuView, m: MmuView, vblank: bool, stat: bool) -> (PpuView, MmuView, bool, bool)
    decreases p.cycle,
{
    match transition(p, m) {
        Some((p1, m1, v, s)) => if p1.cycle < p.cycle {
            run(p1, m1, vblank || v, stat || s)
        } else {
            (p, m, vblank, stat)
        },
        None => (p, m, vblank, stat),
    }
}

/// STAT with the current mode in bits 1-0 and the LY == LYC flag in bit 2.
pub open spec fn with_stat(mode: u8, m: MmuView) -> MmuView {
    let coinc: u8 = if m.io[0x44] == m.io[0x45] { 4 } else { 0 };
    MmuView { io: m.io.update(0x41, (m.io[0x41] & 0xF8) | coinc | (mode & 0x03)), ..m }
}

/// One `Ppu::step`: the new PPU, memory, and VBlank / STAT requests.
pub open spec fn ppu_step(p: PpuView, m: MmuView, cycles: u32) -> (PpuView, MmuView, bool, bool) {
    if m.io[0x40] & 0x80 == 0 {
        let p1 = PpuView { cycle: 0, mode: 0, ..p };
        (p1, with_stat(0, set_ly(m, 0)), false, false)
    } else {
        let (p2, m2, v, s) = run(PpuView { cycle: (p.cycle + cycles) as u32, ..p }, m, false, false);
        (p2, with_stat(p2.mode, m2), v, s)
    }
}

/// A step would overflow the cycle counter or step past LY 0xFF.
pub open spec fn step_defined(p: PpuView, m: MmuView, cycles: u32) -> bool {
    m.io[0x40] & 0x80 != 0 ==> {
        &&& p.cycle + cycles <= u32::MAX
        &&& m.io[0x44] == 0xFF ==> p.cycle + cycles < 456
    }
}

proof fn lemma_run_step(p: PpuView, m: MmuView, vblank: bool, stat: bool)
    requires
        transition(p, m) is Some,
    ensures
        ({
            let (p1, m1, v, s) = transition(p, m)->0;
            &&& p1.cycle < p.cycle
            &&& run(p, m, vblank, stat) == run(p1, m1, vblank || v, stat || s)
        }),
{
}

/// The PPU with `b` more accumulated cycles.
pub open spec fn with_more_cycles(p: PpuView, b: int) -> PpuView {
    PpuView { cycle: (p.cycle + b) as u32, ..p }
}

/// `m2` is `m` but for the mode and coincidence bits (2-0) of STAT.
pub open spec fn same_but_stat_low(m: MmuView, m2: MmuView) -> bool {
    &&& m.io.len() == 128
    &&& m2 == (MmuView { io: m.io.update(0x41, m2.io[0x41]), ..m })
    &&& m2.io[0x41] & 0xF8 == m.io[0x41] & 0xF8
}

/// A mode change that the accumulated cycles allow is still the next one
/// with more cycles accumulated, and leaves those cycles over.
proof fn lemma_transition_more_cycles(p: PpuView, m: MmuView, b: int)
    requires
        transition(p, m) is Some,
        b >= 0,
        p.cycle + b <= u32::MAX,
    ensures
        ({
            let (p1, m1, v, s) = transition(p, m)->0;
            &&& p1.cycle < p.cycle
            &&& transition(with_more_cycles(p, b), m) == Some((with_more_cycles(p1, b), m1, v, s))
        }),
{
}

/// Every mode change the first cycles allow, then the rest with `b` more
/// cycles, is every mode change with the `b` cycles added at the start.
proof fn lemma_run_more_cycles(p: PpuView, m: MmuView, vb: bool, st: bool, b: int)
    requires
        b >= 0,
        p.cycle + b <= u32::MAX,
    ensures
        run(p, m, vb, st).0.cycle <= p.cycle,
        run(with_more_cycles(p, b), m, vb, st) == ({
            let r = run(p, m, vb, st);
            run(with_more_cycles(r.0, b), r.1, r.2, r.3)
        }),
    decreases p.cycle,
{
    match transition(p, m) {
        Some((p1, m1, v, s)) => {
            lemma_transition_more_cycles(p, m, b);
            lemma_run_more_cycles(p1, m1, vb || v, st || s, b);
        },
        None => {},
    }
}

/// The interrupt requests gathered before a run are kept, and the run does
/// not depend on them; the run changes no I/O register but LY and STAT.
proof fn lemma_run_flags(p: PpuView, m: MmuView, vb: bool, st: bool)
    requires
        m.io.len() == 128,
    ensures
        ({
            let r0 = run(p, m, false, false);
            run(p, m, vb, st) == (r0.0, r0.1, vb || r0.2, st || r0.3)
        }),
        run(p, m, vb, st).1.io.len() == m.io.len(),
        run(p, m, vb, st).1.io[0x40] == m.io[0x40],
        run(p, m, vb, st).1.io[0x41] == m.io[0x41],
    decreases p.cycle,
{
    match transition(p, m) {
        Some((p1, m1, v, s)) => {
            if p1.cycle < p.cycle {
                lemma_run_flags(p1, m1, vb || v, st || s);
                lemma_run_flags(p1, m1, v, s);
            }
        },
        None => {},
    }
}

proof fn lemma_stat_bits(x: u8, y: u8)
    by (bit_vector)
    requires
        x & 0xF8 == y & 0xF8,
    ensures
        x & 0x08 == y & 0x08,
        x & 0x10 == y & 0x10,
        x & 0x20 == y & 0x20,
        x & 0x40 == y & 0x40,
{
}

proof fn lemma_with_stat_bits(x: u8, c: u8, k: u8)
    by (bit_vector)
    requires
        c == 0 || c == 4,
    ensures
        ((x & 0xF8) | c | (k & 0x03)) & 0xF8 == x & 0xF8,
{
}

/// Mode changes do not read STAT's low bits: from a memory differing only
/// there, a run makes the same changes and requests.
proof fn lemma_run_stat_low(p: PpuView, m: MmuView, m2: MmuView, vb: bool, st: bool)
    requires
        same_but_stat_low(m, m2),
    ensures
        ({
            let r = run(p, m, vb, st);
            let r2 = run(p, m2, vb, st);
            &&& r2.0 == r.0
            &&& r2.2 == r.2
            &&& r2.3 == r.3
            &&& same_but_stat_low(r.1, r2.1)
        }),
    decreases p.cycle,
{
    lemma_stat_bits(m.io[0x41], m2.io[0x41]);
    let t = transition(p, m);
    let t2 = transition(p, m2);
    assert(m2.io[0x44] == m.io[0x44] && m2.io[0x45] == m.io[0x45] && m2.io[0x40] == m.io[0x40]);
    assert(render_line(p.framebuffer, m.io[0x44], m2) == render_line(p.framebuffer, m.io[0x44], m)) by {
        assert(m2.io[0x42] == m.io[0x42] && m2.io[0x43] == m.io[0x43] && m2.io[0x47] == m.io[0x47]);
    }
    match t {
        Some((p1, m1, v, s)) => {
            let (q1, n1, w, u) = t2->0;
            assert(t2 is Some && q1 == p1 && w == v && u == s && same_but_stat_low(m1, n1)) by {
                if m.io[0x44] < 144 && p.mode == 0 && p.cycle >= 204 || m.io[0x44] >= 144 {
                    assert(set_ly(m, 0).io =~= m.io.update(0x44, 0u8));
                    assert forall|v8: u8| #[trigger] set_ly(m2, v8) == (MmuView {
                        io: set_ly(m, v8).io.update(0x41, set_ly(m2, v8).io[0x41]),
                        ..set_ly(m, v8)
                    }) by {
                        assert(set_ly(m2, v8).io =~= set_ly(m, v8).io.update(0x41, set_ly(m2, v8).io[0x41]));
                    }
                }
            }
            if p1.cycle < p.cycle {
                lemma_run_stat_low(p1, m1, n1, vb || v, st || s);
            }
        },
        None => {
            assert(t2 is None);
        },
    }
}

/// Mode changes never bring LY to 0xFF: a run ends with LY at 0xFF only
/// when it started there and made no change.
proof fn lemma_run_ly(p: PpuView, m: MmuView, vb: bool, st: bool)
    requires
        m.io.len() == 128,
    ensures
        run(p, m, vb, st).1.io[0x44] == 0xFF ==> m.io[0x44] == 0xFF && run(p, m, vb, st).0.cycle == p.cycle,
    decreases p.cycle,
{
    match transition(p, m) {
        Some((p1, m1, v, s)) => {
            if p1.cycle < p.cycle {
                assert(m1.io.len() == 128 && m1.io[0x44] != 0xFF);
                lemma_run_ly(p1, m1, vb || v, st || s);
            }
        },
        None => {},
    }
}

/// Splitting the cycles of one `Ppu::step` with the LCD on into two calls
/// changes nothing: the PPU and the memory end the same, and the VBlank and
/// STAT requests of the two calls together are those of the one. Where the
/// one call is free of overflow (`step_defined`), so are the two.
pub proof fn lemma_step_split(p: PpuView, m: MmuView, a: u32, b: u32)
    requires
        m.wf(),
        m.io[0x40] & 0x80 != 0,
        p.cycle + a + b <= u32::MAX,
    ensures
        ({
            let (p1, m1, v1, s1) = ppu_step(p, m, a);
            let (p2, m2, v2, s2) = ppu_step(p1, m1, b);
            let (p3, m3, v3, s3) = ppu_step(p, m, (a + b) as u32);
            &&& p2 == p3
            &&& m2 == m3
            &&& (v1 || v2) == v3
            &&& (s1 || s2) == s3
            &&& step_defined(p, m, (a + b) as u32) ==> step_defined(p, m, a) && step_defined(p1, m1, b)
        }),
{
    let pa = with_more_cycles(p, a as int);
    lemma_run_ly(pa, m, false, false);
    lemma_run_more_cycles(pa, m, false, false, b as int);
    let (q, mq, v1, s1) = run(pa, m, false, false);
    lemma_run_flags(pa, m, false, false);
    let ws = with_stat(q.mode, mq);
    let coinc: u8 = if mq.io[0x44] == mq.io[0x45] { 4 } else { 0 };
    lemma_with_stat_bits(mq.io[0x41], coinc, q.mode);
    assert(same_but_stat_low(mq, ws)) by {
        assert(ws.io =~= mq.io.update(0x41, ws.io[0x41]));
    }
    assert(ws.io[0x40] == m.io[0x40]);
    assert(with_more_cycles(pa, b as int) == with_more_cycles(p, (a + b) as u32 as int));
    let qb = with_more_cycles(q, b as int);
    lemma_run_flags(qb, mq, v1, s1);
    lemma_run_stat_low(qb, mq, ws, false, false);
    let x = run(qb, mq, false, false);
    let x2 = run(qb, ws, false, false);
    assert(with_stat(x.0.mode, x.1) == with_stat(x.0.mode, x2.1)) by {
        assert(x2.1.io[0x44] == x.1.io[0x44] && x2.1.io[0x45] == x.1.io[0x45]);
        assert(with_stat(x.0.mode, x.1).io =~= with_stat(x.0.mode, x2.1).io);
    }
}

impl Ppu {
    pub open spec fn wf(&self) -> bool {
        self@.framebuffer.len() == 23040
    }

    /// Blank framebuffer, OAM search, nothing ready.
    pub fn new() -> (r: Self)
        ensures
            r.wf(),
            r@ == (PpuView {
                framebuffer: Seq::new(23040, |i: int| 0u8),
                cycle: 0,
                mode: 2,
                frame_ready: false,
            }),
    {
        Ppu { framebuffer: crate::mmu::zeroed(FRAMEBUFFER_SIZE), cycle: 0, mode: MODE_OAM, frame_ready: false }
    }

    /// Whether `step(cycles, mmu)` is free of overflow (see `step_defined`).
    pub fn step_is_defined(&self, cycles: u32, mmu: &Mmu) -> (r: bool)
        requires
            mmu.wf(),
        ensures
            r == step_defined(self@, mmu@, cycles),
    {
        proof {
            lemma_io(mmu@, LCDC_ADDR);
            lemma_io(mmu@, LY_ADDR);
        }
        if mmu.read_byte(LCDC_ADDR) & 0x80 == 0 {
            return true;
        }
        if self.cycle as u64 + cycles as u64 > u32::MAX as u64 {
            return false;
        }
        !(mmu.read_byte(LY_ADDR) == 0xFF && self.cycle + cycles >= CYCLES_PER_LINE)
    }

    /// The current mode (0-3).
    pub fn mode(&self) -> (r: u8)
        ensures
            r == self@.mode,
    {
        self.mode
    }

    /// Advance by `cycles` T-cycles, making every mode change they allow,
    /// then refresh STAT. With the LCD off the PPU holds LY at 0 in HBlank.
    pub fn step(&mut self, cycles: u32, mmu: &mut Mmu) -> (r: PpuResult)
        requires
            old(self).wf(),
            old(mmu).wf(),
            step_defined(old(self)@, old(mmu)@, cycles),
        ensures
            final(self).wf(),
            final(mmu).wf(),
            (final(self)@, final(mmu)@, r.vblank_irq, r.stat_irq) == ppu_step(old(self)@, old(mmu)@, cycles),
    {
        let mut result = PpuResult { vblank_irq: false, stat_irq: false };
        proof {
            lemma_io(mmu@, LCDC_ADDR);
            lemma_io(mmu@, LY_ADDR);
        }
        if mmu.read_byte(LCDC_ADDR) & 0x80 == 0 {
            self.cycle = 0;
            self.mode = MODE_HBLANK;
            mmu.write_byte(LY_ADDR, 0);
            self.update_stat(mmu);
            return result;
        }
        self.cycle = self.cycle + cycles;
        let ghost target = run(self@, mmu@, false, false);
        loop
            invariant
                self.wf(),
                mmu.wf(),
                run(self@, mmu@, result.vblank_irq, result.stat_irq) == target,
                mmu@.io[0x44] == 0xFF ==> self.cycle < 456,
            ensures
                self.wf(),
                mmu.wf(),
                (self@, mmu@, result.vblank_irq, result.stat_irq) == target,
            decreases self.cycle,
        {
            let ghost p0 = self@;
            let ghost m0 = mmu@;
            let ghost vb0 = result.vblank_irq;
            let ghost st0 = result.stat_irq;
            proof {
                lemma_io(mmu@, LY_ADDR);
                lemma_io(mmu@, STAT_ADDR);
                lemma_io(mmu@, LYC_ADDR);
            }
            let ly = mmu.read_byte(LY_ADDR);
            if ly < VBLANK_START {
                if self.mode == MODE_OAM && self.cycle >= CYCLES_OAM {
                    self.cycle = self.cycle - CYCLES_OAM;
                    self.mode = MODE_TRANSFER;
                } else if self.mode == MODE_TRANSFER && self.cycle >= CYCLES_TRANSFER {
                    self.cycle = self.cycle - CYCLES_TRANSFER;
                    self.mode = MODE_HBLANK;
                    self.render_scanline(ly, mmu);
                    if mmu.read_byte(STAT_ADDR) & 0x08 != 0 {
                        result.stat_irq = true;
                    }
                } else if self.mode == MODE_HBLANK && self.cycle >= CYCLES_HBLANK {
                    self.cycle = self.cycle - CYCLES_HBLANK;
                    let next_ly = ly + 1;
                    mmu.write_byte(LY_ADDR, next_ly);
                    proof {
                        lemma_io(mmu@, LY_ADDR);
                        lemma_io(mmu@, STAT_ADDR);
                        lemma_io(mmu@, LYC_ADDR);
                    }
                    if next_ly >= VBLANK_START {
                        self.mode = MODE_VBLANK;
                        self.frame_ready = true;
                        result.vblank_irq = true;
                        if mmu.read_byte(STAT_ADDR) & 0x10 != 0 {
                            result.stat_irq = true;
                        }
                    } else {
                        self.mode = MODE_OAM;
                        if mmu.read_byte(STAT_ADDR) & 0x20 != 0 {
                            result.stat_irq = true;
                        }
                    }
                    let new_ly = mmu.read_byte(LY_ADDR);
                    let lyc = mmu.read_byte(LYC_ADDR);
                    if new_ly == lyc && mmu.read_byte(STAT_ADDR) & 0x40 != 0 {
                        result.stat_irq = true;
                    }
                } else {
                    break;
                }
            } else {
                if self.cycle >= CYCLES_PER_LINE {
                    self.cycle = self.cycle - CYCLES_PER_LINE;
                    let next_ly = ly + 1;
                    if next_ly >= TOTAL_LINES {
                        mmu.write_byte(LY_ADDR, 0);
                        proof {
                            lemma_io(mmu@, STAT_ADDR);
                        }
                        self.mode = MODE_OAM;
                        self.frame_ready = false;
                        if mmu.read_byte(STAT_ADDR) & 0x20 != 0 {
                            result.stat_irq = true;
                        }
                    } else {
                        mmu.write_byte(LY_ADDR, next_ly);
                    }
                    proof {
                        lemma_io(mmu@, LY_ADDR);
                        lemma_io(mmu@, STAT_ADDR);
                        lemma_io(mmu@, LYC_ADDR);
                    }
                    let new_ly = mmu.read_byte(LY_ADDR);
                    let lyc = mmu.read_byte(LYC_ADDR);
                    if new_ly == lyc && mmu.read_byte(STAT_ADDR) & 0x40 != 0 {
                        result.stat_irq = true;
                    }
                } else {
                    break;
                }
            }
            proof {
                lemma_run_step(p0, m0, vb0, st0);
                let (p1, m1, v, s) = transition(p0, m0)->0;
                assert(self@ == p1);
                assert(mmu@ == m1);
            }
        }
        self.update_stat(mmu);
        result
    }

    /// Store the mode and the LY == LYC flag in STAT, keeping bits 7-3.
    fn update_stat(&self, mmu: &mut Mmu)
        requires
            old(mmu).wf(),
        ensures
            final(mmu).wf(),
            final(mmu)@ == with_stat(self@.mode, old(mmu)@),
    {
        proof {
            lemma_io(mmu@, STAT_ADDR);
            lemma_io(mmu@, LY_ADDR);
            lemma_io(mmu@, LYC_ADDR);
        }
        let stat = mmu.read_byte(STAT_ADDR);
        let ly = mmu.read_byte(LY_ADDR);
        let lyc = mmu.read_byte(LYC_ADDR);
        let coinc: u8 = if ly == lyc { 0x04 } else { 0x00 };
        mmu.write_byte(STAT_ADDR, (stat & 0xF8) | coinc | (self.mode & 0x03));
    }

    fn render_scanline(&mut self, ly: u8, mmu: &Mmu)
        requires
            old(self).wf(),
            mmu.wf(),
            ly < 144,
        ensures
            final(self).wf(),
            final(self)@ == (PpuView { framebuffer: render_line(old(self)@.framebuffer, ly, mmu@), ..old(self)@ }),
    {
        proof {
            lemma_io(mmu@, LCDC_ADDR);
        }
        let lcdc = mmu.read_byte(LCDC_ADDR);
        if lcdc & 0x01 != 0 {
            self.render_background(ly, lcdc, mmu);
        }
    }

    fn render_background(&mut self, ly: u8, lcdc: u8, mmu: &Mmu)
        requires
            old(self).wf(),
            mmu.wf(),
            ly < 144,
            lcdc == mmu@.io[0x40],
            lcdc & 0x01 != 0,
        ensures
            final(self).wf(),
            final(self)@ == (PpuView { framebuffer: render_line(old(self)@.framebuffer, ly, mmu@), ..old(self)@ }),
    {
        proof {
            lemma_io(mmu@, SCY_ADDR);
            lemma_io(mmu@, SCX_ADDR);
            lemma_io(mmu@, BGP_ADDR);
        }
        let scy = mmu.read_byte(SCY_ADDR);
        let scx = mmu.read_byte(SCX_ADDR);
        let bgp = mmu.read_byte(BGP_ADDR);
        let map_base: u16 = if lcdc & 0x08 != 0 { 0x9C00 } else { 0x9800 };
        let use_signed = lcdc & 0x10 == 0;
        let y = ((ly as u16 + scy as u16) % 256) as u8;
        let tile_row = (y / 8) as u16;
        let base: usize = ly as usize * SCREEN_WIDTH;
        let ghost old_fb = self.framebuffer@;
        let ghost m = mmu@;
        let mut px: u8 = 0;
        while px < 160
            invariant
                mmu@ == m,
                m.wf(),
                ly < 144,
                base == ly * 160,
                0 <= px <= 160,
                lcdc == m.io[0x40],
                scy == m.io[0x42],
                scx == m.io[0x43],
                bgp == m.io[0x47],
                map_base == (if lcdc & 0x08 != 0 { 0x9C00int } else { 0x9800int }),
                use_signed == (lcdc & 0x10 == 0),
                y == ((ly + scy) % 256) as u8,
                tile_row == y / 8,
                self.frame_ready == old(self).frame_ready,
                self.cycle == old(self).cycle,
                self.mode == old(self).mode,
                self.framebuffer@ == Seq::new(
                    23040,
                    |i: int|
                        if base <= i < base + px {
                            bg_shade(m, lcdc, ly, (i - base) as u8)
                        } else {
                            old_fb[i]
                        },
                ),
            decreases 160 - px,
        {
            let x = ((px as u16 + scx as u16) % 256) as u8;
            let tile_col = (x / 8) as u16;
            let map_addr = map_base + tile_row * 32 + tile_col;
            proof {
                lemma_vram_read(m, map_addr);
            }
            let tile_num = mmu.read_byte(map_addr);
            let ta = tile_addr(tile_num, use_signed);
            let row_offset = (y % 8) as u16 * 2;
            proof {
                lemma_vram_read(m, (ta + row_offset) as u16);
                lemma_vram_read(m, (ta + row_offset + 1) as u16);
            }
            let lo = mmu.read_byte(ta + row_offset);
            let hi = mmu.read_byte(ta + row_offset + 1);
            let cidx = color_index(lo, hi, 7 - (x % 8));
            let s = shade(bgp, cidx);
            proof {
                assert(s == bg_shade(m, lcdc, ly, px));
            }
            self.framebuffer.set(base + px as usize, s);
            px = px + 1;
            proof {
                assert(self.framebuffer@ =~= Seq::new(
                    23040,
                    |i: int|
                        if base <= i < base + px {
                            bg_shade(m, lcdc, ly, (i - base) as u8)
                        } else {
                            old_fb[i]
                        },
                ));
            }
        }
        proof {
            assert(self.framebuffer@ =~= render_line(old_fb, ly, m));
        }
    }
}

impl Default for Ppu {
    fn default() -> (r: Self)
        ensures
            r.wf(),
    {
        Self::new()
    }
}

} // verus!
