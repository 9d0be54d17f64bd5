//! CGB colour palette RAM (64 bytes: 8 palettes of 4 RGB555 colours) and
//! RGB555 to RGB888 conversion.

use vstd::prelude::*;

verus! {

#[derive(Clone, Debug)]
pub struct CgbPalette {
    pub ram: Vec<u8>,
    /// Specification register: bit 7 auto-increment, bits 5-0 index.
    pub spec: u8,
}

/// A 5-bit channel widened to 8 bits (top bits repeated into the bottom).
pub open spec fn expand5(x: int) -> int {
    x * 8 + x / 4
}

/// The 0x00RRGGBB colour of an RGB555 value (red in bits 4-0, green in 9-5,
/// blue in 14-10; bit 15 ignored).
pub open spec fn rgb888_of(rgb555: u16) -> u32 {
    (expand5((rgb555 % 32) as int) * 0x10000 + expand5(((rgb555 / 32) % 32) as int) * 0x100 + expand5(
        ((rgb555 / 1024) % 32) as int,
    )) as u32
}

/// The RGB555 colour stored little-endian at byte `off` of palette RAM.
pub open spec fn color_at(ram: Seq<u8>, off: int) -> u16 {
    (ram[off] + ram[off + 1] * 256) as u16
}

/// Byte offset of colour `color` of palette `pal`, clamped to the last colour.
pub open spec fn color_offset(pal: int, color: int) -> int {
    if pal * 8 + color * 2 < 62 {
        pal * 8 + color * 2
    } else {
        62
    }
}

/// The state of a palette: its RAM bytes and specification register.
pub struct PaletteView {
    pub ram: Seq<u8>,
    pub spec: u8,
}

impl View for CgbPalette {
    type V = PaletteView;

    open spec fn view(&self) -> PaletteView {
        PaletteView { ram: self.ram@, spec: self.spec }
    }
}

impl PaletteView {
    pub open spec fn wf(self) -> bool {
        self.ram.len() == 64
    }

    /// Writing the data register: the selected byte takes `value`; with
    /// auto-increment (bit 7) the index advances, wrapping from 63 to 0.
    pub open spec fn write_data(self, value: u8) -> PaletteView {
        PaletteView {
            ram: self.ram.update((self.spec % 64) as int, value),
            spec: if self.spec >= 0x80 {
                (0x80 + (self.spec % 64 + 1) % 64) as u8
            } else {
                self.spec
            },
        }
    }

    /// Reading the data register: the selected byte.
    pub open spec fn read_data(self) -> u8 {
        self.ram[(self.spec % 64) as int]
    }

    /// Colour `color` of palette `pal` as 0x00RRGGBB.
    pub open spec fn color(self, pal: int, color: int) -> u32 {
        rgb888_of(color_at(self.ram, color_offset(pal, color)))
    }
}

/// A byte written through the data register is read back there: without
/// auto-increment the index stays and the read returns it; with
/// auto-increment the index moves to the next byte (wrapping from 63 to 0)
/// and the byte written stays at the old index.
pub proof fn lemma_palette_write_then_read(p: PaletteView, value: u8)
    requires
        p.wf(),
    ensures
        p.write_data(value).wf(),
        p.spec < 0x80 ==> p.write_data(value).read_data() == value,
        p.spec >= 0x80 ==> p.write_data(value).spec % 64 == (p.spec % 64 + 1) % 64,
        p.write_data(value).ram[(p.spec % 64) as int] == value,
{
}

impl CgbPalette {
    /// Palette RAM holds its 64 bytes.
    pub open spec fn wf(&self) -> bool {
        self.ram@.len() == 64
    }

    /// All 64 bytes 0xFF, index 0, no auto-increment.
    pub fn new() -> (r: Self)
        ensures
            r.ram@ == Seq::new(64, |i: int| 0xFFu8),
            r.spec == 0,
            r.wf(),
    {
        let mut ram: Vec<u8> = Vec::new();
        while ram.len() < 64
            invariant
                ram.len() <= 64,
                forall|i: int| 0 <= i < ram.len() ==> ram@[i] == 0xFFu8,
            decreases 64 - ram.len(),
        {
            ram.push(0xFF);
        }
        assert(ram@ =~= Seq::new(64, |i: int| 0xFFu8));
        CgbPalette { ram, spec: 0x00 }
    }

    /// The byte index selected by the specification register.
    pub fn index(&self) -> (r: usize)
        ensures
            r == self.spec % 64,
    {
        proof {
            let s = self.spec;
            crate::bits::lemma_u8(s);
        }
        (self.spec & 0x3F) as usize
    }

    pub fn auto_increment(&self) -> (r: bool)
        ensures
            r == (self.spec >= 0x80),
    {
        proof {
            let s = self.spec;
            crate::bits::lemma_u8(s);
        }
        self.spec & 0x80 != 0
    }

    /// Write the selected byte; with auto-increment the index advances,
    /// wrapping from 63 to 0, and bit 7 is kept.
    pub fn write_data(&mut self, value: u8)
        requires
            old(self).wf(),
        ensures
            final(self).wf(),
            final(self)@ == old(self)@.write_data(value),
    {
        let idx = self.index();
        if idx < 64 {
            self.ram[idx] = value;
        }
        if self.auto_increment() {
            proof {
                let s = self.spec;
                assert(s >= 0x80 ==> (s & 0x80) | (s.wrapping_add(1) & 0x3F) == 0x80 + (s % 64 + 1) % 64) by {
                    crate::bits::lemma_u8(s);
                    crate::bits::lemma_u8_pair(s, s.wrapping_add(1));
                }
            }
            self.spec = (self.spec & 0x80) | (self.spec.wrapping_add(1) & 0x3F);
        }
    }

    /// The selected byte.
    pub fn read_data(&self) -> (r: u8)
        requires
            self.wf(),
        ensures
            r == self@.read_data(),
    {
        let idx = self.index();
        if idx < 64 {
            self.ram[idx]
        } else {
            0xFF
        }
    }

    /// Colour `color` of palette `pal` as 0x00RRGGBB.
    pub fn get_color(&self, pal: usize, color: usize) -> (r: u32)
        requires
            self.wf(),
            pal * 8 + color * 2 <= usize::MAX,
        ensures
            r == self@.color(pal as int, color as int),
    {
        let o = pal * 8 + color * 2;
        let off = if o < 62 { o } else { 62 };
        let lo = self.ram[off] as u16;
        let hi = self.ram[off + 1] as u16;
        proof {
            crate::bits::lemma_join(hi, lo);
        }
        rgb555_to_rgb888(lo | (hi << 8))
    }
}

impl Default for CgbPalette {
    fn default() -> (r: Self)
        ensures
            r.ram@ == Seq::new(64, |i: int| 0xFFu8),
            r.spec == 0,
    {
        Self::new()
    }
}

/// Convert a CGB RGB555 colour to 0x00RRGGBB.
pub fn rgb555_to_rgb888(rgb555: u16) -> (r: u32)
    ensures
        r == rgb888_of(rgb555),
{
    let r5 = (rgb555 & 0x1F) as u32;
    let g5 = ((rgb555 >> 5) & 0x1F) as u32;
    let b5 = ((rgb555 >> 10) & 0x1F) as u32;
    proof {
        let v = rgb555;
        crate::bits::lemma_u16(v);
        crate::bits::lemma_rgb();
        assert(r5 * 8 + r5 / 4 < 256 && g5 * 8 + g5 / 4 < 256 && b5 * 8 + b5 / 4 < 256);
    }
    ((r5 << 3 | r5 >> 2) << 16) | ((g5 << 3 | g5 >> 2) << 8) | (b5 << 3 | b5 >> 2)
}

} // verus!
