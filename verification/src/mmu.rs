//! Memory Management Unit: the DMG/CGB memory map with VRAM and WRAM
//! banking, OAM DMA, HDMA and the CGB I/O registers.
//!
//! Memory map:
//!   0x0000-0x7FFF  ROM (cartridge, or a bare ROM image; 0x0000-0x00FF BIOS while active)
//!   0x8000-0x9FFF  VRAM (bank selected by VBK)
//!   0xA000-0xBFFF  cartridge RAM
//!   0xC000-0xCFFF  WRAM bank 0
//!   0xD000-0xDFFF  WRAM bank 1-7 (selected by SVBK)
//!   0xE000-0xFDFF  echo of 0xC000-0xDDFF
//!   0xFE00-0xFE9F  OAM
//!   0xFEA0-0xFEFF  unusable (reads 0xFF)
//!   0xFF00-0xFF7F  I/O registers
//!   0xFF80-0xFFFE  HRAM
//!   0xFFFF         IE

use crate::cartridge::{byte_or_ff, Cartridge, CartridgeView};
use crate::gbc_bios_palettes::bios_palettes;
use crate::ppu::cgb_palette::{CgbPalette, PaletteView};
use crate::text::{decimal, push_decimal};
use vstd::prelude::*;

verus! {

pub struct Mmu {
    pub bios: [u8; 256],
    pub bios_active: bool,
    pub cartridge: Option<Cartridge>,
    bare_rom: Vec<u8>,
    /// Two 8 KiB banks, bank N at offset N * 0x2000.
    pub vram: Vec<u8>,
    pub vram_bank: u8,
    /// Eight 4 KiB banks, bank N at offset N * 0x1000.
    pub wram: Vec<u8>,
    pub wram_bank: u8,
    pub oam: [u8; 160],
    pub io: [u8; 128],
    pub hram: [u8; 127],
    pub ie: u8,
    pub cgb_mode: bool,
    pub double_speed: bool,
    pub prepare_speed_switch: bool,
    pub bg_palette: CgbPalette,
    pub obj_palette: CgbPalette,
    hdma_src: u16,
    hdma_dst: u16,
    hdma_remaining: u8,
    hdma_hblank: bool,
    pub hdma_active: bool,
    dma_active: bool,
    dma_source: u16,
    dma_offset: u8,
}

/// The state of the memory system.
pub struct MmuView {
    pub bios: Seq<u8>,
    pub bios_active: bool,
    pub cart: Option<CartridgeView>,
    pub bare_rom: Seq<u8>,
    pub vram: Seq<u8>,
    pub vram_bank: u8,
    pub wram: Seq<u8>,
    pub wram_bank: u8,
    pub oam: Seq<u8>,
    pub io: Seq<u8>,
    pub hram: Seq<u8>,
    pub ie: u8,
    pub cgb_mode: bool,
    pub double_speed: bool,
    pub prepare_speed_switch: bool,
    pub bg_palette: PaletteView,
    pub obj_palette: PaletteView,
    pub hdma_src: u16,
    pub hdma_dst: u16,
    pub hdma_remaining: u8,
    pub hdma_hblank: bool,
    pub hdma_active: bool,
    pub dma_active: bool,
    pub dma_source: u16,
    pub dma_offset: u8,
}

impl View for Mmu {
    type V = MmuView;

    closed spec fn view(&self) -> MmuView {
        MmuView {
            bios: self.bios@,
            bios_active: self.bios_active,
            cart: match self.cartridge {
                Some(c) => Some(c@),
                None => None,
            },
            bare_rom: self.bare_rom@,
            vram: self.vram@,
            vram_bank: self.vram_bank,
            wram: self.wram@,
            wram_bank: self.wram_bank,
            oam: self.oam@,
            io: self.io@,
            hram: self.hram@,
            ie: self.ie,
            cgb_mode: self.cgb_mode,
            double_speed: self.double_speed,
            prepare_speed_switch: self.prepare_speed_switch,
            bg_palette: self.bg_palette@,
            obj_palette: self.obj_palette@,
            hdma_src: self.hdma_src,
            hdma_dst: self.hdma_dst,
            hdma_remaining: self.hdma_remaining,
            hdma_hblank: self.hdma_hblank,
            hdma_active: self.hdma_active,
            dma_active: self.dma_active,
            dma_source: self.dma_source,
            dma_offset: self.dma_offset,
        }
    }
}

impl MmuView {
    /// The invariant every operation keeps: array sizes (two 8 KiB VRAM banks,
    /// eight 4 KiB WRAM banks), a VRAM bank of 0 or 1, a switchable WRAM bank
    /// of 1-7, 64-byte palettes and a cartridge controller whose clock can
    /// advance.
    pub open spec fn wf(self) -> bool {
        &&& self.vram.len() == 0x4000
        &&& self.wram.len() == 0x8000
        &&& self.vram_bank <= 1
        &&& 1 <= self.wram_bank <= 7
        &&& self.bios.len() == 256
        &&& self.oam.len() == 160
        &&& self.io.len() == 128
        &&& self.hram.len() == 127
        &&& self.bg_palette.wf()
        &&& self.obj_palette.wf()
        &&& match self.cart {
            Some(c) => c.mbc.wf(),
            None => true,
        }
    }

    /// Reading 0x0000-0xDFFF (ROM, VRAM, cartridge RAM, WRAM).
    pub open spec fn read_low(self, addr: u16) -> u8 {
        if addr <= 0x00FF && self.bios_active {
            self.bios[addr as int]
        } else if addr <= 0x7FFF {
            match self.cart {
                Some(c) => c.mbc.read_rom(addr),
                None => byte_or_ff(self.bare_rom, addr as int),
            }
        } else if addr <= 0x9FFF {
            byte_or_ff(self.vram, addr - 0x8000 + self.vram_bank * 0x2000)
        } else if addr <= 0xBFFF {
            match self.cart {
                Some(c) => c.mbc.read_ram((addr - 0xA000) as u16),
                None => 0xFF,
            }
        } else if addr <= 0xCFFF {
            byte_or_ff(self.wram, addr - 0xC000)
        } else {
            byte_or_ff(self.wram, self.wram_bank * 0x1000 + (addr - 0xD000))
        }
    }

    /// Reading an I/O register (0xFF00-0xFF7F).
    pub open spec fn read_io(self, addr: u16) -> u8 {
        if addr == 0xFF69 {
            self.bg_palette.read_data()
        } else if addr == 0xFF6B {
            self.obj_palette.read_data()
        } else if addr == 0xFF68 {
            self.bg_palette.spec
        } else if addr == 0xFF6A {
            self.obj_palette.spec
        } else if addr == 0xFF4F {
            0xFE | self.vram_bank
        } else if addr == 0xFF70 {
            self.wram_bank
        } else if addr == 0xFF4D {
            ((if self.double_speed { 0x80int } else { 0 }) + (if self.prepare_speed_switch { 1int } else { 0 })) as u8
        } else if addr == 0xFF55 {
            if self.hdma_active {
                self.hdma_remaining & 0x7F
            } else {
                0xFF
            }
        } else {
            self.io[addr - 0xFF00]
        }
    }

    /// The byte the CPU reads at `addr`.
    #[verifier::opaque]
    pub open spec fn read(self, addr: u16) -> u8 {
        if addr <= 0xDFFF {
            self.read_low(addr)
        } else if addr <= 0xFDFF {
            self.read_low((addr - 0x2000) as u16)
        } else if addr <= 0xFE9F {
            self.oam[addr - 0xFE00]
        } else if addr <= 0xFEFF {
            0xFF
        } else if addr <= 0xFF7F {
            self.read_io(addr)
        } else if addr <= 0xFFFE {
            self.hram[addr - 0xFF80]
        } else {
            self.ie
        }
    }

    /// The little-endian word at `addr` (the high byte from `addr + 1`, wrapping).
    #[verifier::opaque]
    pub open spec fn read_word(self, addr: u16) -> u16 {
        (self.read(addr) + self.read(((addr + 1) % 0x10000) as u16) * 256) as u16
    }

    /// Writing 0x0000-0xDFFF.
    pub open spec fn write_low(self, addr: u16, value: u8) -> MmuView {
        if addr <= 0x7FFF {
            match self.cart {
                Some(c) => MmuView {
                    cart: Some(CartridgeView { mbc: c.mbc.write_rom(addr, value), ..c }),
                    ..self
                },
                None => self,
            }
        } else if addr <= 0x9FFF {
            let i = addr - 0x8000 + self.vram_bank * 0x2000;
            if i < self.vram.len() {
                MmuView { vram: self.vram.update(i, value), ..self }
            } else {
                self
            }
        } else if addr <= 0xBFFF {
            match self.cart {
                Some(c) => MmuView {
                    cart: Some(CartridgeView { mbc: c.mbc.write_ram((addr - 0xA000) as u16, value), ..c }),
                    ..self
                },
                None => self,
            }
        } else {
            let i = if addr <= 0xCFFF {
                addr - 0xC000
            } else {
                self.wram_bank * 0x1000 + (addr - 0xD000)
            };
            if i < self.wram.len() {
                MmuView { wram: self.wram.update(i, value), ..self }
            } else {
                self
            }
        }
    }

    /// The state after the first `n` bytes of an OAM DMA from `src`: each OAM
    /// byte `i` takes what the CPU would read at `src + i` at that moment.
    pub open spec fn oam_dma(self, src: u16, n: nat) -> MmuView
        decreases n,
    {
        if n == 0 {
            self
        } else {
            let prev = self.oam_dma(src, (n - 1) as nat);
            MmuView {
                oam: prev.oam.update(n - 1, prev.read((src + n - 1) as u16)),
                ..prev
            }
        }
    }

    /// The state after the first `n` of the 16 byte copies of an HDMA block.
    pub open spec fn hdma_copy(self, n: nat) -> MmuView
        decreases n,
    {
        if n == 0 {
            self
        } else {
            let prev = self.hdma_copy((n - 1) as nat);
            let src = ((self.hdma_src + n - 1) % 0x10000) as u16;
            let dst = ((self.hdma_dst + n - 1) % 0x2000) as int;
            let i = self.vram_bank * 0x2000 + dst;
            if i < prev.vram.len() {
                MmuView { vram: prev.vram.update(i, prev.read(src)), ..prev }
            } else {
                prev
            }
        }
    }

    /// One 16-byte HDMA block: copy, advance source and destination by 16, and
    /// count the block (remaining 0 becomes the "done" value 0xFF).
    #[verifier::opaque]
    pub open spec fn hdma_block(self) -> MmuView {
        let c = self.hdma_copy(16);
        MmuView {
            hdma_src: ((self.hdma_src + 16) % 0x10000) as u16,
            hdma_dst: ((self.hdma_dst + 16) % 0x10000) as u16,
            hdma_remaining: if self.hdma_remaining == 0 {
                0xFF
            } else {
                (self.hdma_remaining - 1) as u8
            },
            ..c
        }
    }

    /// `k` HDMA blocks in a row.
    pub open spec fn hdma_blocks(self, k: nat) -> MmuView
        decreases k,
    {
        if k == 0 {
            self
        } else {
            self.hdma_blocks((k - 1) as nat).hdma_block()
        }
    }

    /// Writing HDMA5 (0xFF55) in CGB mode: bit 7 clear runs a general-purpose
    /// DMA of `(value & 0x7F) + 1` blocks at once; bit 7 set starts an H-Blank
    /// DMA, or cancels the one that is running.
    pub open spec fn write_hdma5(self, value: u8) -> MmuView {
        let len = value & 0x7F;
        if value & 0x80 == 0 {
            let started = MmuView { hdma_remaining: len, hdma_hblank: false, hdma_active: true, ..self };
            let done = started.hdma_blocks((len + 1) as nat);
            MmuView { hdma_active: false, io: done.io.update(0x55, 0xFF), ..done }
        } else if self.hdma_active && self.hdma_hblank {
            MmuView { hdma_active: false, io: self.io.update(0x55, 0xFF), ..self }
        } else {
            MmuView { hdma_remaining: len, hdma_hblank: true, hdma_active: true, ..self }
        }
    }

    /// Writing an I/O register (0xFF00-0xFF7F).
    pub open spec fn write_io(self, addr: u16, value: u8) -> MmuView {
        let off = addr - 0xFF00;
        if addr == 0xFF00 {
            MmuView { io: self.io.update(0, (self.io[0] & 0x0F) | (value & 0x30)), ..self }
        } else if addr == 0xFF03 {
            self
        } else if addr == 0xFF04 {
            MmuView { io: self.io.update(4, 0), ..self }
        } else if addr == 0xFF46 {
            MmuView { io: self.io.update(0x46, value), ..self }.oam_dma((value * 256) as u16, 0xA0)
        } else if addr == 0xFF4F && self.cgb_mode {
            MmuView { vram_bank: value & 0x01, io: self.io.update(0x4F, value), ..self }
        } else if addr == 0xFF4D && self.cgb_mode {
            MmuView {
                prepare_speed_switch: self.prepare_speed_switch || value & 0x01 != 0,
                io: self.io.update(0x4D, value),
                ..self
            }
        } else if addr == 0xFF51 {
            MmuView { hdma_src: ((self.hdma_src % 256) + value * 256) as u16, ..self }
        } else if addr == 0xFF52 {
            MmuView { hdma_src: ((self.hdma_src / 256) * 256 + (value & 0xF0)) as u16, ..self }
        } else if addr == 0xFF53 {
            MmuView { hdma_dst: (0x8000 + (value & 0x1F) * 256 + self.hdma_dst % 256) as u16, ..self }
        } else if addr == 0xFF54 {
            MmuView { hdma_dst: ((self.hdma_dst / 256) * 256 + (value & 0xF0)) as u16, ..self }
        } else if addr == 0xFF55 && self.cgb_mode {
            self.write_hdma5(value)
        } else if addr == 0xFF70 && self.cgb_mode {
            let bank: u8 = if value & 0x07 == 0 { 1 } else { value & 0x07 };
            MmuView { wram_bank: bank, io: self.io.update(0x70, bank), ..self }
        } else if addr == 0xFF68 && self.cgb_mode {
            MmuView { bg_palette: PaletteView { spec: value, ..self.bg_palette }, ..self }
        } else if addr == 0xFF69 && self.cgb_mode {
            MmuView { bg_palette: self.bg_palette.write_data(value), ..self }
        } else if addr == 0xFF6A && self.cgb_mode {
            MmuView { obj_palette: PaletteView { spec: value, ..self.obj_palette }, ..self }
        } else if addr == 0xFF6B && self.cgb_mode {
            MmuView { obj_palette: self.obj_palette.write_data(value), ..self }
        } else {
            MmuView { io: self.io.update(off, value), ..self }
        }
    }

    /// The state after the CPU writes `value` at `addr`.
    #[verifier::opaque]
    pub open spec fn write(self, addr: u16, value: u8) -> MmuView {
        if addr <= 0xDFFF {
            self.write_low(addr, value)
        } else if addr <= 0xFDFF {
            self.write_low((addr - 0x2000) as u16, value)
        } else if addr <= 0xFE9F {
            if !self.dma_active {
                MmuView { oam: self.oam.update(addr - 0xFE00, value), ..self }
            } else {
                self
            }
        } else if addr <= 0xFEFF {
            self
        } else if addr <= 0xFF7F {
            self.write_io(addr, value)
        } else if addr <= 0xFFFE {
            MmuView { hram: self.hram.update(addr - 0xFF80, value), ..self }
        } else {
            MmuView { ie: value, ..self }
        }
    }

    /// Writing a little-endian word: the low byte at `addr`, then the high
    /// byte at `addr + 1` (wrapping).
    #[verifier::opaque]
    pub open spec fn write_word(self, addr: u16, value: u16) -> MmuView {
        self.write(addr, (value % 256) as u8).write(((addr + 1) % 0x10000) as u16, (value / 256) as u8)
    }

    /// One H-Blank step of HDMA: a block is copied when an H-Blank DMA is
    /// running, and the transfer ends after its last block.
    #[verifier::opaque]
    pub open spec fn hdma_hblank_step(self) -> MmuView {
        if !self.hdma_active || !self.hdma_hblank {
            self
        } else {
            let b = self.hdma_block();
            if b.hdma_remaining == 0xFF {
                MmuView { hdma_active: false, ..b }
            } else {
                b
            }
        }
    }

    /// The cartridge clock advanced by `cycles` T-cycles.
    pub open spec fn tick_rtc(self, cycles: u64) -> MmuView {
        MmuView {
            cart: match self.cart {
                Some(c) => Some(CartridgeView { mbc: c.mbc.tick_rtc(cycles), ..c }),
                None => None,
            },
            ..self
        }
    }

    /// Performing a prepared CGB speed switch: toggle double speed and show it
    /// in KEY1.
    #[verifier::opaque]
    pub open spec fn speed_switch(self) -> MmuView {
        if self.prepare_speed_switch {
            MmuView {
                double_speed: !self.double_speed,
                prepare_speed_switch: false,
                io: self.io.update(0x4D, if !self.double_speed { 0x80 } else { 0x00 }),
                ..self
            }
        } else {
            self
        }
    }
}

proof fn lemma_oam_dma_keeps(m: MmuView, src: u16, n: nat)
    requires
        n <= m.oam.len(),
    ensures
        m.oam_dma(src, n) == (MmuView { oam: m.oam_dma(src, n).oam, ..m }),
        m.oam_dma(src, n).oam.len() == m.oam.len(),
    decreases n,
{
    if n > 0 {
        lemma_oam_dma_keeps(m, src, (n - 1) as nat);
    }
}

proof fn lemma_hdma_copy_keeps(m: MmuView, n: nat)
    ensures
        m.hdma_copy(n) == (MmuView { vram: m.hdma_copy(n).vram, ..m }),
        m.hdma_copy(n).vram.len() == m.vram.len(),
    decreases n,
{
    if n > 0 {
        lemma_hdma_copy_keeps(m, (n - 1) as nat);
    }
}

proof fn lemma_hdma_blocks_keeps(m: MmuView, k: nat)
    ensures
        m.hdma_blocks(k).wf() == m.wf(),
        m.hdma_blocks(k).hdma_active == m.hdma_active,
        m.hdma_blocks(k).hdma_hblank == m.hdma_hblank,
        m.hdma_blocks(k).io == m.io,
        m.hdma_blocks(k).vram_bank == m.vram_bank,
        m.hdma_remaining <= 0x7F && k <= m.hdma_remaining ==> m.hdma_blocks(k).hdma_remaining
            == m.hdma_remaining - k,
        m.hdma_remaining <= 0x7F && k == m.hdma_remaining + 1 ==> m.hdma_blocks(k).hdma_remaining == 0xFF,
    decreases k,
{
    reveal(MmuView::hdma_block);
    if k > 0 {
        lemma_hdma_blocks_keeps(m, (k - 1) as nat);
        lemma_hdma_copy_keeps(m.hdma_blocks((k - 1) as nat), 16);
    }
}

/// Reading a byte of VRAM, WRAM (or its echo), HRAM or IE gives back the
/// last byte written there.
pub proof fn lemma_read_after_write(m: MmuView, addr: u16, value: u8)
    requires
        m.wf(),
        (0x8000 <= addr <= 0x9FFF) || (0xC000 <= addr <= 0xFDFF) || 0xFF80 <= addr,
    ensures
        m.write(addr, value).read(addr) == value,
        m.write(addr, value).wf(),
{
    reveal(MmuView::read);
    reveal(MmuView::write);
}

/// A word written to WRAM or HRAM reads back: the low byte at `addr`, the
/// high byte at `addr + 1`, and the word itself.
pub proof fn lemma_word_read_after_write(m: MmuView, addr: u16, value: u16)
    requires
        m.wf(),
        (0xC000 <= addr && addr + 1 <= 0xDFFF) || (0xFF80 <= addr && addr + 1 <= 0xFFFE),
    ensures
        m.write_word(addr, value).read(addr) == value % 256,
        m.write_word(addr, value).read((addr + 1) as u16) == value / 256,
        m.write_word(addr, value).read_word(addr) == value,
        m.write_word(addr, value).wf(),
{
    reveal(MmuView::write_word);
    reveal(MmuView::read_word);
    let lo = (value % 256) as u8;
    let hi = (value / 256) as u8;
    let m1 = m.write(addr, lo);
    let a1 = ((addr + 1) % 0x10000) as u16;
    lemma_read_after_write(m, addr, lo);
    lemma_read_after_write(m1, a1, hi);
    assert(m1.write(a1, hi).read(addr) == lo) by {
        reveal(MmuView::read);
        reveal(MmuView::write);
    }
}

/// In CGB mode, writing `v` to SVBK (0xFF70) selects WRAM bank `v % 8` at
/// 0xD000-0xDFFF, or bank 1 when that is 0; SVBK then reads that bank.
pub proof fn lemma_svbk(m: MmuView, v: u8)
    requires
        m.wf(),
        m.cgb_mode,
    ensures
        m.write(0xFF70, v).wram_bank == (if v % 8 == 0 { 1 } else { v % 8 }),
        m.write(0xFF70, v).read(0xFF70) == m.write(0xFF70, v).wram_bank,
        m.write(0xFF70, v).wram == m.wram,
        m.write(0xFF70, v).wf(),
{
    reveal(MmuView::read);
    reveal(MmuView::write);
    assert(v & 0x07 == v % 8) by (bit_vector);
}

/// The switchable WRAM banks are separate memories: a byte written at
/// 0xD000-0xDFFF with bank `b1` selected leaves what bank `b2` holds there,
/// and selecting `b1` again reads it back.
pub proof fn lemma_wram_banks_separate(m: MmuView, b1: u8, b2: u8, addr: u16, x: u8)
    requires
        m.wf(),
        m.cgb_mode,
        1 <= b1 <= 7,
        1 <= b2 <= 7,
        b1 != b2,
        0xD000 <= addr <= 0xDFFF,
    ensures
        m.write(0xFF70, b1).write(addr, x).write(0xFF70, b2).read(addr) == m.write(0xFF70, b2).read(addr),
        m.write(0xFF70, b1).write(addr, x).write(0xFF70, b2).write(0xFF70, b1).read(addr) == x,
{
    reveal(MmuView::read);
    reveal(MmuView::write);
    assert(b1 & 0x07 == b1 && b2 & 0x07 == b2) by (bit_vector)
        requires
            1 <= b1 <= 7,
            1 <= b2 <= 7,
    ;
}

/// In CGB mode, writing `v` to VBK (0xFF4F) selects VRAM bank `v % 2`; VBK
/// then reads 0xFE with that bank in bit 0.
pub proof fn lemma_vbk(m: MmuView, v: u8)
    requires
        m.wf(),
        m.cgb_mode,
    ensures
        m.write(0xFF4F, v).vram_bank == v % 2,
        m.write(0xFF4F, v).read(0xFF4F) == 0xFE | (v % 2) as u8,
        m.write(0xFF4F, v).vram == m.vram,
{
    reveal(MmuView::read);
    reveal(MmuView::write);
    assert(v & 0x01 == v % 2) by (bit_vector);
}

/// The two VRAM banks are separate memories: a byte written at
/// 0x8000-0x9FFF in bank 0 leaves what bank 1 holds there, and selecting
/// bank 0 again reads it back.
pub proof fn lemma_vram_banks_separate(m: MmuView, addr: u16, x: u8)
    requires
        m.wf(),
        m.cgb_mode,
        0x8000 <= addr <= 0x9FFF,
    ensures
        m.write(0xFF4F, 0).write(addr, x).write(0xFF4F, 1).read(addr) == m.write(0xFF4F, 1).read(addr),
        m.write(0xFF4F, 0).write(addr, x).write(0xFF4F, 1).write(0xFF4F, 0).read(addr) == x,
{
    reveal(MmuView::read);
    reveal(MmuView::write);
    assert(0u8 & 0x01 == 0 && 1u8 & 0x01 == 1) by (bit_vector);
}

/// Writing IF or HRAM leaves every byte below 0x8000 (BIOS, ROM) as it reads.
pub proof fn lemma_high_write_keeps_rom(m: MmuView, addr: u16, value: u8, a: u16)
    requires
        m.wf(),
        addr == 0xFF0F || 0xFF80 <= addr <= 0xFFFE,
        a <= 0x7FFF,
    ensures
        m.write(addr, value).read(a) == m.read(a),
        m.write(addr, value).wf(),
{
    reveal(MmuView::read);
    reveal(MmuView::write);
}

/// An I/O register with no side effect on reads or writes: bytes written to
/// it are stored, and reads return what is stored.
pub open spec fn plain_io(addr: u16) -> bool {
    &&& 0xFF00 < addr <= 0xFF7F
    &&& addr != 0xFF03 && addr != 0xFF04 && addr != 0xFF46
    &&& addr != 0xFF4D && addr != 0xFF4F && addr != 0xFF70
    &&& !(0xFF51 <= addr <= 0xFF55)
    &&& !(0xFF68 <= addr <= 0xFF6B)
}

pub proof fn lemma_plain_io(m: MmuView, addr: u16)
    requires
        m.wf(),
        plain_io(addr),
    ensures
        m.read(addr) == m.io[addr - 0xFF00],
        forall|v: u8| #[trigger] m.write(addr, v) == (MmuView { io: m.io.update(addr - 0xFF00, v), ..m }),
{
    reveal(MmuView::read);
    reveal(MmuView::write);
}

/// JOYP reads back the stored byte.
pub proof fn lemma_joyp_read(m: MmuView)
    requires
        m.wf(),
    ensures
        m.read(0xFF00) == m.io[0],
{
    reveal(MmuView::read);
}

/// The echo region 0xE000-0xFDFF reads and writes WRAM at 0x2000 below.
pub proof fn lemma_echo_ram(m: MmuView, addr: u16, value: u8)
    requires
        0xE000 <= addr <= 0xFDFF,
    ensures
        m.read(addr) == m.read((addr - 0x2000) as u16),
        m.write(addr, value) == m.write((addr - 0x2000) as u16, value),
{
    reveal(MmuView::read);
    reveal(MmuView::write);
}

/// The memory system at power-on: no BIOS overlay or cartridge, empty bare
/// ROM, zeroed memories, VRAM bank 0, WRAM bank 1, DMG mode at normal speed,
/// palette RAM all 0xFF, no DMA.
pub open spec fn power_on_mmu() -> MmuView {
    MmuView {
        bios: Seq::new(256, |i: int| 0u8),
        bios_active: false,
        cart: None,
        bare_rom: Seq::empty(),
        vram: Seq::new(0x4000, |i: int| 0u8),
        vram_bank: 0,
        wram: Seq::new(0x8000, |i: int| 0u8),
        wram_bank: 1,
        oam: Seq::new(160, |i: int| 0u8),
        io: Seq::new(128, |i: int| 0u8),
        hram: Seq::new(127, |i: int| 0u8),
        ie: 0,
        cgb_mode: false,
        double_speed: false,
        prepare_speed_switch: false,
        bg_palette: PaletteView { ram: Seq::new(64, |i: int| 0xFFu8), spec: 0 },
        obj_palette: PaletteView { ram: Seq::new(64, |i: int| 0xFFu8), spec: 0 },
        hdma_src: 0,
        hdma_dst: 0,
        hdma_remaining: 0,
        hdma_hblank: false,
        hdma_active: false,
        dma_active: false,
        dma_source: 0,
        dma_offset: 0,
    }
}

impl Mmu {
    pub open spec fn wf(&self) -> bool {
        self@.wf()
    }

    /// Power-on state: no cartridge, empty bare ROM, zeroed memories, VRAM
    /// bank 0, WRAM bank 1, DMG mode, normal speed.
    pub fn new() -> (r: Self)
        ensures
            r.wf(),
            r@ == power_on_mmu(),
            r@.cart is None,
            r@.bare_rom.len() == 0,
            !r@.bios_active,
            r@.vram == Seq::new(0x4000, |i: int| 0u8),
            r@.wram == Seq::new(0x8000, |i: int| 0u8),
            r@.oam == Seq::new(160, |i: int| 0u8),
            r@.io == Seq::new(128, |i: int| 0u8),
            r@.hram == Seq::new(127, |i: int| 0u8),
            r@.ie == 0,
            r@.vram_bank == 0 && r@.wram_bank == 1,
            !r@.cgb_mode && !r@.double_speed && !r@.prepare_speed_switch,
            r@.bg_palette.ram == Seq::new(64, |i: int| 0xFFu8) && r@.bg_palette.spec == 0,
            r@.obj_palette.ram == Seq::new(64, |i: int| 0xFFu8) && r@.obj_palette.spec == 0,
            !r@.hdma_active && !r@.dma_active,
    {
        let r = Mmu {
            bios: [0u8; 256],
            bios_active: false,
            cartridge: None,
            bare_rom: Vec::new(),
            vram: zeroed(0x4000),
            vram_bank: 0,
            wram: zeroed(0x8000),
            wram_bank: 1,
            oam: [0u8; 160],
            io: [0u8; 128],
            hram: [0u8; 127],
            ie: 0,
            cgb_mode: false,
            double_speed: false,
            prepare_speed_switch: false,
            bg_palette: CgbPalette::new(),
            obj_palette: CgbPalette::new(),
            hdma_src: 0,
            hdma_dst: 0,
            hdma_remaining: 0,
            hdma_hblank: false,
            hdma_active: false,
            dma_active: false,
            dma_source: 0,
            dma_offset: 0,
        };
        assert(r.oam@ =~= Seq::new(160, |i: int| 0u8));
        assert(r.io@ =~= Seq::new(128, |i: int| 0u8));
        assert(r.hram@ =~= Seq::new(127, |i: int| 0u8));
        assert(r.bios@ =~= Seq::new(256, |i: int| 0u8));
        assert(r@.bare_rom =~= Seq::<u8>::empty());
        r
    }

    /// Colourise a DMG cartridge as the GBC boot ROM does: its background
    /// and sprite palette RAM take the colours chosen for `rom`.
    pub fn apply_bios_palettes(&mut self, rom: &[u8])
        requires
            old(self).wf(),
        ensures
            final(self).wf(),
            final(self)@ == (MmuView {
                bg_palette: PaletteView {
                    ram: bios_palettes(rom@, old(self)@.bg_palette.ram, old(self)@.obj_palette.ram).0,
                    ..old(self)@.bg_palette
                },
                obj_palette: PaletteView {
                    ram: bios_palettes(rom@, old(self)@.bg_palette.ram, old(self)@.obj_palette.ram).1,
                    ..old(self)@.obj_palette
                },
                ..old(self)@
            }),
    {
        crate::gbc_bios_palettes::apply_bios_palettes(rom, &mut self.bg_palette, &mut self.obj_palette);
    }

    /// Insert a cartridge; CGB mode follows the header's CGB flag.
    pub fn load_cartridge(&mut self, cart: Cartridge)
        requires
            old(self).wf(),
            cart@.mbc.wf(),
        ensures
            final(self).wf(),
            final(self)@ == (MmuView {
                cgb_mode: cart@.header.cgb_flag == 0x80 || cart@.header.cgb_flag == 0xC0,
                cart: Some(cart@),
                ..old(self)@
            }),
    {
        let cgb_flag = cart.header_ref().cgb_flag;
        self.cgb_mode = cgb_flag == 0x80 || cgb_flag == 0xC0;
        self.cartridge = Some(cart);
    }

    /// Use a bare ROM image (no controller); it must hold at least 32 KiB.
    pub fn load_rom(&mut self, data: &[u8]) -> (r: Result<(), String>)
        requires
            old(self).wf(),
        ensures
            final(self).wf(),
            data@.len() < 0x8000 ==> r is Err && final(self)@ == old(self)@,
            data@.len() >= 0x8000 ==> r is Ok && final(self)@ == (MmuView { bare_rom: data@, ..old(self)@ }),
    {
        if data.len() < 0x8000 {
            return Err(String::from_str("ROM too small"));
        }
        self.bare_rom = vstd::slice::slice_to_vec(data);
        Ok(())
    }

    /// A VRAM byte (`addr` in 0x8000-0x9FFF, taken modulo 8 KiB) from an explicit bank.
    pub fn read_vram_bank(&self, addr: u16, bank: u8) -> (r: u8)
        ensures
            r == byte_or_ff(self@.vram, bank * 0x2000 + addr % 0x2000),
    {
        proof {
            crate::bits::lemma_u16(addr);
        }
        let offset = (addr & 0x1FFF) as usize;
        let idx = bank as usize * 0x2000 + offset;
        if idx < self.vram.len() {
            self.vram[idx]
        } else {
            0xFF
        }
    }

    /// An OAM byte by offset (0-159); 0xFF beyond.
    pub fn read_oam(&self, offset: usize) -> (r: u8)
        requires
            self.wf(),
        ensures
            r == byte_or_ff(self@.oam, offset as int),
    {
        if offset < 160 {
            self.oam[offset]
        } else {
            0xFF
        }
    }

    /// Colour `color` of CGB background palette `pal`.
    pub fn bg_palette_color(&self, pal: usize, color: usize) -> (r: u32)
        requires
            self.wf(),
            pal < 8,
            color < 4,
        ensures
            r == self@.bg_palette.color(pal as int, color as int),
    {
        self.bg_palette.get_color(pal, color)
    }

    /// Colour `color` of CGB sprite palette `pal`.
    pub fn obj_palette_color(&self, pal: usize, color: usize) -> (r: u32)
        requires
            self.wf(),
            pal < 8,
            color < 4,
        ensures
            r == self@.obj_palette.color(pal as int, color as int),
    {
        self.obj_palette.get_color(pal, color)
    }

    /// Whether the memory system runs in CGB mode.
    pub fn is_cgb_mode(&self) -> (r: bool)
        ensures
            r == self@.cgb_mode,
    {
        self.cgb_mode
    }

    /// Whether the CPU runs at double speed.
    pub fn is_double_speed(&self) -> (r: bool)
        ensures
            r == self@.double_speed,
    {
        self.double_speed
    }

    /// Whether a speed switch is armed.
    pub fn speed_switch_armed(&self) -> (r: bool)
        ensures
            r == self@.prepare_speed_switch,
    {
        self.prepare_speed_switch
    }

    /// Advance the cartridge clock (MBC3 only).
    pub fn tick_cartridge_rtc(&mut self, cycles: u64)
        requires
            old(self).wf(),
        ensures
            final(self).wf(),
            final(self)@ == old(self)@.tick_rtc(cycles),
    {
        match &mut self.cartridge {
            Some(cart) => cart.tick_rtc(cycles),
            None => {},
        }
    }

    /// One H-Blank HDMA step; returns whether blocks remain.
    pub fn hdma_hblank_step(&mut self) -> (r: bool)
        requires
            old(self).wf(),
        ensures
            final(self).wf(),
            final(self)@ == old(self)@.hdma_hblank_step(),
            r == (old(self)@.hdma_active && old(self)@.hdma_hblank && final(self)@.hdma_active),
    {
        proof {
            reveal(MmuView::hdma_hblank_step);
            reveal(MmuView::hdma_block);
        }
        if !self.hdma_active || !self.hdma_hblank {
            return false;
        }
        proof {
            lemma_hdma_copy_keeps(self@, 16);
        }
        self.hdma_transfer_block();
        if self.hdma_remaining == 0xFF {
            self.hdma_active = false;
            false
        } else {
            true
        }
    }

    /// Copy one 16-byte block from the HDMA source to VRAM.
    pub fn hdma_transfer_block(&mut self)
        requires
            old(self).wf(),
        ensures
            final(self).wf(),
            final(self)@ == old(self)@.hdma_block(),
    {
        proof {
            reveal(MmuView::hdma_block);
        }
        let ghost start = self@;
        let mut i: u16 = 0;
        while i < 16
            invariant
                0 <= i <= 16,
                self@ == start.hdma_copy(i as nat),
                start.wf(),
            decreases 16 - i,
        {
            proof {
                lemma_hdma_copy_keeps(start, i as nat);
            }
            let src = self.hdma_src.wrapping_add(i);
            let dst = (self.hdma_dst.wrapping_add(i) & 0x1FFF) as usize;
            proof {
                let d = self.hdma_dst;
                assert(d.wrapping_add(i) & 0x1FFF == (d + i) % 0x2000) by {
                    crate::bits::lemma_u16(d.wrapping_add(i));
                }
            }
            let val = self.read_byte(src);
            let bank = self.vram_bank as usize;
            if bank * 0x2000 + dst < self.vram.len() {
                self.vram[bank * 0x2000 + dst] = val;
            }
            proof {
                assert(self@ =~= start.hdma_copy((i + 1) as nat));
            }
            i = i + 1;
        }
        proof {
            lemma_hdma_copy_keeps(start, 16);
        }
        self.hdma_src = self.hdma_src.wrapping_add(16);
        self.hdma_dst = self.hdma_dst.wrapping_add(16);
        if self.hdma_remaining == 0 {
            self.hdma_remaining = 0xFF;
        } else {
            self.hdma_remaining = self.hdma_remaining - 1;
        }
    }

    /// Perform a prepared CGB speed switch.
    pub fn execute_speed_switch(&mut self)
        requires
            old(self).wf(),
        ensures
            final(self).wf(),
            final(self)@ == old(self)@.speed_switch(),
    {
        proof {
            reveal(MmuView::speed_switch);
        }
        if self.prepare_speed_switch {
            self.double_speed = !self.double_speed;
            self.prepare_speed_switch = false;
            let key1: u8 = if self.double_speed { 0x80 } else { 0x00 };
            self.io[0x4D] = key1;
        }
    }

    fn read_low(&self, addr: u16) -> (r: u8)
        requires
            self.wf(),
            addr <= 0xDFFF,
        ensures
            r == self@.read_low(addr),
    {
        if addr <= 0x00FF && self.bios_active {
            self.bios[addr as usize]
        } else if addr <= 0x7FFF {
            match &self.cartridge {
                Some(cart) => cart.read_rom(addr),
                None => {
                    if (addr as usize) < self.bare_rom.len() {
                        self.bare_rom[addr as usize]
                    } else {
                        0xFF
                    }
                },
            }
        } else if addr <= 0x9FFF {
            let offset = (addr as usize - 0x8000) + self.vram_bank as usize * 0x2000;
            if offset < self.vram.len() {
                self.vram[offset]
            } else {
                0xFF
            }
        } else if addr <= 0xBFFF {
            match &self.cartridge {
                Some(cart) => cart.read_ram(addr - 0xA000),
                None => 0xFF,
            }
        } else if addr <= 0xCFFF {
            let off = (addr - 0xC000) as usize;
            if off < self.wram.len() {
                self.wram[off]
            } else {
                0xFF
            }
        } else {
            let off = self.wram_bank as usize * 0x1000 + (addr - 0xD000) as usize;
            if off < self.wram.len() {
                self.wram[off]
            } else {
                0xFF
            }
        }
    }

    /// The byte at `addr` in the memory map.
    pub fn read_byte(&self, addr: u16) -> (r: u8)
        requires
            self.wf(),
        ensures
            r == self@.read(addr),
    {
        proof {
            reveal(MmuView::read);
        }
        if addr <= 0xDFFF {
            self.read_low(addr)
        } else if addr <= 0xFDFF {
            self.read_low(addr - 0x2000)
        } else if addr <= 0xFE9F {
            self.oam[(addr - 0xFE00) as usize]
        } else if addr <= 0xFEFF {
            0xFF
        } else if addr <= 0xFF7F {
            self.read_io(addr)
        } else if addr <= 0xFFFE {
            self.hram[(addr - 0xFF80) as usize]
        } else {
            self.ie
        }
    }

    fn write_low(&mut self, addr: u16, value: u8)
        requires
            old(self).wf(),
            addr <= 0xDFFF,
        ensures
            final(self).wf(),
            final(self)@ == old(self)@.write_low(addr, value),
    {
        if addr <= 0x7FFF {
            match &mut self.cartridge {
                Some(cart) => {
                    proof {
                        crate::cartridge::lemma_mbc_writes_keep_wf(cart@.mbc, addr, value);
                    }
                    cart.write_rom(addr, value);
                },
                None => {},
            }
        } else if addr <= 0x9FFF {
            let offset = (addr as usize - 0x8000) + self.vram_bank as usize * 0x2000;
            if offset < self.vram.len() {
                self.vram[offset] = value;
            }
        } else if addr <= 0xBFFF {
            match &mut self.cartridge {
                Some(cart) => {
                    proof {
                        crate::cartridge::lemma_mbc_writes_keep_wf(cart@.mbc, (addr - 0xA000) as u16, value);
                    }
                    cart.write_ram(addr - 0xA000, value);
                },
                None => {},
            }
        } else if addr <= 0xCFFF {
            let off = (addr - 0xC000) as usize;
            if off < self.wram.len() {
                self.wram[off] = value;
            }
        } else {
            let off = self.wram_bank as usize * 0x1000 + (addr - 0xD000) as usize;
            if off < self.wram.len() {
                self.wram[off] = value;
            }
        }
    }

    /// Write `value` at `addr` in the memory map.
    pub fn write_byte(&mut self, addr: u16, value: u8)
        requires
            old(self).wf(),
        ensures
            final(self).wf(),
            final(self)@ == old(self)@.write(addr, value),
    {
        proof {
            reveal(MmuView::write);
        }
        if addr <= 0xDFFF {
            self.write_low(addr, value);
        } else if addr <= 0xFDFF {
            self.write_low(addr - 0x2000, value);
        } else if addr <= 0xFE9F {
            if !self.dma_active {
                self.oam[(addr - 0xFE00) as usize] = value;
            }
        } else if addr <= 0xFEFF {
        } else if addr <= 0xFF7F {
            self.write_io(addr, value);
        } else if addr <= 0xFFFE {
            self.hram[(addr - 0xFF80) as usize] = value;
        } else {
            self.ie = value;
        }
    }

    /// Read an I/O register (0xFF00-0xFF7F).
    pub fn read_io(&self, addr: u16) -> (r: u8)
        requires
            self.wf(),
            0xFF00 <= addr <= 0xFF7F,
        ensures
            r == self@.read_io(addr),
    {
        if addr == 0xFF69 {
            self.bg_palette.read_data()
        } else if addr == 0xFF6B {
            self.obj_palette.read_data()
        } else if addr == 0xFF68 {
            self.bg_palette.spec
        } else if addr == 0xFF6A {
            self.obj_palette.spec
        } else if addr == 0xFF4F {
            0xFE | self.vram_bank
        } else if addr == 0xFF70 {
            self.wram_bank
        } else if addr == 0xFF4D {
            let mut v: u8 = if self.double_speed { 0x80 } else { 0x00 };
            if self.prepare_speed_switch {
                v = v + 1;
            }
            v
        } else if addr == 0xFF55 {
            if self.hdma_active {
                self.hdma_remaining & 0x7F
            } else {
                0xFF
            }
        } else {
            self.io[(addr - 0xFF00) as usize]
        }
    }

    fn oam_dma(&mut self, value: u8)
        requires
            old(self).wf(),
        ensures
            final(self).wf(),
            final(self)@ == old(self)@.oam_dma((value * 256) as u16, 0xA0),
    {
        let src = (value as u16) << 8;
        proof {
            crate::bits::lemma_u8(value);
        }
        let ghost start = self@;
        let mut i: u16 = 0;
        while i < 0xA0
            invariant
                0 <= i <= 0xA0,
                src == value * 256,
                self@ == start.oam_dma(src, i as nat),
                start.wf(),
            decreases 0xA0 - i,
        {
            proof {
                lemma_oam_dma_keeps(start, src, i as nat);
            }
            let v = self.read_byte(src + i);
            self.oam[i as usize] = v;
            proof {
                assert(self@ =~= start.oam_dma(src, (i + 1) as nat));
            }
            i = i + 1;
        }
        proof {
            lemma_oam_dma_keeps(start, src, 0xA0);
        }
    }

    fn write_hdma5(&mut self, value: u8)
        requires
            old(self).wf(),
        ensures
            final(self).wf(),
            final(self)@ == old(self)@.write_hdma5(value),
    {
        let len = value & 0x7F;
        if value & 0x80 == 0 {
            self.hdma_remaining = len;
            self.hdma_hblank = false;
            self.hdma_active = true;
            let ghost started = self@;
            let ghost mut k: nat = 0;
            proof {
                crate::bits::lemma_u8(value);
            }
            while self.hdma_active
                invariant_except_break
                    self@ == started.hdma_blocks(k),
                    self.hdma_active,
                    k <= len,
                invariant
                    started.wf(),
                    started.hdma_remaining == len,
                    len <= 0x7F,
                    started.hdma_active,
                    !started.hdma_hblank,
                    self.wf(),
                ensures
                    self@ == (MmuView { hdma_active: false, ..started.hdma_blocks((len + 1) as nat) }),
                decreases len + 1 - k,
            {
                proof {
                    lemma_hdma_blocks_keeps(started, k);
                }
                self.hdma_transfer_block();
                proof {
                    k = k + 1;
                    lemma_hdma_blocks_keeps(started, k);
                }
                if self.hdma_remaining == 0xFF {
                    self.hdma_active = false;
                    proof {
                        assert(k == len + 1);
                    }
                    break;
                }
            }
            proof {
                lemma_hdma_blocks_keeps(started, (len + 1) as nat);
            }
            self.io[0x55] = 0xFF;
        } else {
            if self.hdma_active && self.hdma_hblank {
                self.hdma_active = false;
                self.io[0x55] = 0xFF;
            } else {
                self.hdma_remaining = len;
                self.hdma_hblank = true;
                self.hdma_active = true;
            }
        }
    }

    /// Write an I/O register (0xFF00-0xFF7F).
    pub fn write_io(&mut self, addr: u16, value: u8)
        requires
            old(self).wf(),
            0xFF00 <= addr <= 0xFF7F,
        ensures
            final(self).wf(),
            final(self)@ == old(self)@.write_io(addr, value),
    {
        let off = (addr - 0xFF00) as usize;
        if addr == 0xFF00 {
            self.io[0x00] = (self.io[0x00] & 0x0F) | (value & 0x30);
        } else if addr == 0xFF03 {
        } else if addr == 0xFF04 {
            self.io[0x04] = 0;
        } else if addr == 0xFF46 {
            self.io[0x46] = value;
            self.oam_dma(value);
        } else if addr == 0xFF4F && self.cgb_mode {
            proof {
                crate::bits::lemma_u8(value);
            }
            self.vram_bank = value & 0x01;
            self.io[0x4F] = value;
        } else if addr == 0xFF4D && self.cgb_mode {
            if value & 0x01 != 0 {
                self.prepare_speed_switch = true;
            }
            self.io[0x4D] = value;
        } else if addr == 0xFF51 {
            proof {
                let s = self.hdma_src;
                crate::bits::lemma_merge(s, value);
            }
            self.hdma_src = (self.hdma_src & 0x00FF) | ((value as u16) << 8);
        } else if addr == 0xFF52 {
            proof {
                let s = self.hdma_src;
                crate::bits::lemma_merge(s, value);
            }
            self.hdma_src = (self.hdma_src & 0xFF00) | ((value & 0xF0) as u16);
        } else if addr == 0xFF53 {
            proof {
                let d = self.hdma_dst;
                crate::bits::lemma_merge(d, value);
            }
            self.hdma_dst = (self.hdma_dst & 0x00FF) | (((value & 0x1F) as u16) << 8) | 0x8000;
        } else if addr == 0xFF54 {
            proof {
                let d = self.hdma_dst;
                crate::bits::lemma_merge(d, value);
            }
            self.hdma_dst = (self.hdma_dst & 0xFF00) | ((value & 0xF0) as u16);
        } else if addr == 0xFF55 && self.cgb_mode {
            self.write_hdma5(value);
        } else if addr == 0xFF70 && self.cgb_mode {
            proof {
                crate::bits::lemma_u8(value);
            }
            self.wram_bank = if value & 0x07 == 0 { 1 } else { value & 0x07 };
            self.io[0x70] = self.wram_bank;
        } else if addr == 0xFF68 && self.cgb_mode {
            self.bg_palette.spec = value;
        } else if addr == 0xFF69 && self.cgb_mode {
            self.bg_palette.write_data(value);
        } else if addr == 0xFF6A && self.cgb_mode {
            self.obj_palette.spec = value;
        } else if addr == 0xFF6B && self.cgb_mode {
            self.obj_palette.write_data(value);
        } else {
            self.io[off] = value;
        }
    }

    /// The little-endian word at `addr`.
    pub fn read_word(&self, addr: u16) -> (r: u16)
        requires
            self.wf(),
        ensures
            r == self@.read_word(addr),
    {
        proof {
            reveal(MmuView::read_word);
        }
        let lo = self.read_byte(addr) as u16;
        let hi = self.read_byte(addr.wrapping_add(1)) as u16;
        proof {
            crate::bits::lemma_join(hi, lo);
        }
        lo | (hi << 8)
    }

    /// Write a little-endian word at `addr`.
    pub fn write_word(&mut self, addr: u16, value: u16)
        requires
            old(self).wf(),
        ensures
            final(self).wf(),
            final(self)@ == old(self)@.write_word(addr, value),
    {
        proof {
            reveal(MmuView::write_word);
        }
        proof {
            crate::bits::lemma_u16(value);
        }
        self.write_byte(addr, (value & 0xFF) as u8);
        self.write_byte(addr.wrapping_add(1), (value >> 8) as u8);
    }

    /// Set DIV directly (the timer's path, not the reset-on-write of the CPU).
    pub fn set_div(&mut self, val: u8)
        requires
            old(self).wf(),
        ensures
            final(self).wf(),
            final(self)@ == (MmuView { io: old(self)@.io.update(0x04, val), ..old(self)@ }),
    {
        self.io[0x04] = val;
    }

    /// Switch CGB mode on or off (the CGB registers answer only in CGB mode).
    pub fn set_cgb_mode(&mut self, on: bool)
        requires
            old(self).wf(),
        ensures
            final(self).wf(),
            final(self)@ == (MmuView { cgb_mode: on, ..old(self)@ }),
    {
        self.cgb_mode = on;
    }

    /// Set the whole JOYP register directly, lower nibble included (the joypad's path).
    pub fn set_joyp(&mut self, val: u8)
        requires
            old(self).wf(),
        ensures
            final(self).wf(),
            final(self)@ == (MmuView { io: old(self)@.io.update(0x00, val), ..old(self)@ }),
    {
        self.io[0x00] = val;
    }

    /// Load a 256-byte BIOS image and overlay it on 0x0000-0x00FF.
    pub fn load_bios(&mut self, data: &[u8]) -> (r: Result<(), String>)
        requires
            old(self).wf(),
        ensures
            final(self).wf(),
            data@.len() == 256 ==> r is Ok && final(self)@ == (MmuView {
                bios: data@,
                bios_active: true,
                ..old(self)@
            }),
            data@.len() != 256 ==> final(self)@ == old(self)@ && (r matches Err(e) && e@
                == "BIOS must be exactly 256 bytes, got "@ + decimal(data@.len())),
    {
        if data.len() != 256 {
            let mut e = String::from_str("BIOS must be exactly 256 bytes, got ");
            push_decimal(&mut e, data.len());
            return Err(e);
        }
        let mut i: usize = 0;
        while i < 256
            invariant
                0 <= i <= 256,
                data@.len() == 256,
                self@ == (MmuView { bios: self@.bios, ..old(self)@ }),
                self@.bios.len() == 256,
                forall|j: int| 0 <= j < i ==> self@.bios[j] == data@[j],
            decreases 256 - i,
        {
            self.bios[i] = data[i];
            i = i + 1;
        }
        assert(self@.bios =~= data@);
        self.bios_active = true;
        Ok(())
    }
}

/// A zero-filled buffer of `n` bytes.
pub fn zeroed(n: usize) -> (r: Vec<u8>)
    ensures
        r@ == Seq::new(n as nat, |i: int| 0u8),
{
    let mut v: Vec<u8> = Vec::new();
    while v.len() < n
        invariant
            v.len() <= n,
            forall|i: int| 0 <= i < v.len() ==> v@[i] == 0u8,
        decreases n - v.len(),
    {
        v.push(0);
    }
    assert(v@ =~= Seq::new(n as nat, |i: int| 0u8));
    v
}

/// Copy `src` over the array `dst` of the same length.
fn copy_exact<const N: usize>(dst: &mut [u8; N], src: &[u8])
    requires
        src@.len() == N,
    ensures
        final(dst)@ == src@,
{
    let mut i: usize = 0;
    while i < N
        invariant
            i <= N,
            src@.len() == N,
            dst@.len() == N,
            forall|j: int| 0 <= j < i ==> dst@[j] == src@[j],
        decreases N - i,
    {
        dst[i] = src[i];
        i = i + 1;
    }
    assert(dst@ =~= src@);
}

/// The memory contents a save state keeps: BIOS, VRAM and WRAM with their
/// bank selections, OAM, I/O registers, HRAM, IE and the CGB mode flags.
pub struct MmuState {
    pub bios: Vec<u8>,
    pub bios_active: bool,
    /// Both VRAM banks, flattened.
    pub vram: Vec<u8>,
    pub vram_bank: u8,
    /// All eight WRAM banks, flattened.
    pub wram: Vec<u8>,
    pub wram_bank: u8,
    pub oam: Vec<u8>,
    pub io: Vec<u8>,
    pub hram: Vec<u8>,
    pub ie: u8,
    pub cgb_mode: bool,
    pub double_speed: bool,
}

/// `s` holds the saved parts of the memory `m`.
pub open spec fn saved_from(s: MmuState, m: MmuView) -> bool {
    &&& s.bios@ == m.bios && s.bios_active == m.bios_active
    &&& s.vram@ == m.vram && s.vram_bank == m.vram_bank
    &&& s.wram@ == m.wram && s.wram_bank == m.wram_bank
    &&& s.oam@ == m.oam && s.io@ == m.io && s.hram@ == m.hram
    &&& s.ie == m.ie && s.cgb_mode == m.cgb_mode && s.double_speed == m.double_speed
}

/// The memory `m` with the saved parts `s` put back; a fixed-size area
/// (BIOS, OAM, I/O, HRAM) is taken only when its saved size matches.
pub open spec fn restored(m: MmuView, s: MmuState) -> MmuView {
    MmuView {
        bios: if s.bios@.len() == 256 { s.bios@ } else { m.bios },
        bios_active: s.bios_active,
        vram: s.vram@,
        vram_bank: s.vram_bank,
        wram: s.wram@,
        wram_bank: s.wram_bank,
        oam: if s.oam@.len() == 160 { s.oam@ } else { m.oam },
        io: if s.io@.len() == 128 { s.io@ } else { m.io },
        hram: if s.hram@.len() == 127 { s.hram@ } else { m.hram },
        ie: s.ie,
        cgb_mode: s.cgb_mode,
        double_speed: s.double_speed,
        ..m
    }
}

impl MmuState {
    /// The sizes and bank selections a machine's memory keeps: 16 KiB of
    /// VRAM, 32 KiB of WRAM, VRAM bank 0 or 1, WRAM bank 1-7.
    pub open spec fn wf(&self) -> bool {
        &&& self.vram@.len() == 0x4000
        &&& self.wram@.len() == 0x8000
        &&& self.vram_bank <= 1
        &&& 1 <= self.wram_bank <= 7
    }

    /// Whether the saved memory has those sizes and bank selections (`wf`).
    pub fn is_consistent(&self) -> (r: bool)
        ensures
            r == self.wf(),
    {
        self.vram.len() == 0x4000 && self.wram.len() == 0x8000 && self.vram_bank <= 1
            && 1 <= self.wram_bank && self.wram_bank <= 7
    }

    /// The saved parts of `mmu`.
    pub fn from_mmu(mmu: &Mmu) -> (r: Self)
        ensures
            saved_from(r, mmu@),
    {
        MmuState {
            bios: vstd::slice::slice_to_vec(mmu.bios.as_slice()),
            bios_active: mmu.bios_active,
            vram: vstd::slice::slice_to_vec(mmu.vram.as_slice()),
            vram_bank: mmu.vram_bank,
            wram: vstd::slice::slice_to_vec(mmu.wram.as_slice()),
            wram_bank: mmu.wram_bank,
            oam: vstd::slice::slice_to_vec(mmu.oam.as_slice()),
            io: vstd::slice::slice_to_vec(mmu.io.as_slice()),
            hram: vstd::slice::slice_to_vec(mmu.hram.as_slice()),
            ie: mmu.ie,
            cgb_mode: mmu.cgb_mode,
            double_speed: mmu.double_speed,
        }
    }

    /// Put the saved parts back into `mmu`.
    #[verifier::rlimit(40)]
    #[verifier::spinoff_prover]
    pub fn restore_into_mmu(self, mmu: &mut Mmu)
        requires
            old(mmu).wf(),
            self.wf(),
        ensures
            final(mmu).wf(),
            final(mmu)@ == restored(old(mmu)@, self),
    {
        let ghost target = restored(mmu@, self);
        if self.bios.len() == 256 {
            copy_exact(&mut mmu.bios, self.bios.as_slice());
        }
        if self.oam.len() == 160 {
            copy_exact(&mut mmu.oam, self.oam.as_slice());
        }
        if self.io.len() == 128 {
            copy_exact(&mut mmu.io, self.io.as_slice());
        }
        if self.hram.len() == 127 {
            copy_exact(&mut mmu.hram, self.hram.as_slice());
        }
        mmu.bios_active = self.bios_active;
        mmu.vram = self.vram;
        mmu.vram_bank = self.vram_bank;
        mmu.wram = self.wram;
        mmu.wram_bank = self.wram_bank;
        mmu.ie = self.ie;
        mmu.cgb_mode = self.cgb_mode;
        mmu.double_speed = self.double_speed;
        assert(mmu@ == target);
    }
}

impl Default for Mmu {
    fn default() -> (r: Self)
        ensures
            r.wf(),
    {
        Self::new()
    }
}

} // verus!
