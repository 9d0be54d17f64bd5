//! The DMG core's memory map.
//!
//!   0x0000-0x7FFF  ROM (cartridge, else a bare ROM image; 0x0000-0x00FF BIOS while active)
//!   0x8000-0x9FFF  VRAM
//!   0xA000-0xBFFF  cartridge RAM
//!   0xC000-0xDFFF  WRAM
//!   0xE000-0xFDFF  echo of WRAM
//!   0xFE00-0xFE9F  OAM
//!   0xFEA0-0xFEFF  unusable (reads 0xFF)
//!   0xFF00-0xFF7F  I/O registers
//!   0xFF80-0xFFFE  HRAM
//!   0xFFFF         IE

use super::cartridge::Cartridge;
use crate::cartridge::{byte_or_ff, CartridgeView};
use crate::text::{decimal, push_decimal};
use vstd::prelude::*;

verus! {

pub const BIOS_SIZE: usize = 0x0100;
pub const ROM_BANK_SIZE: usize = 0x4000;

pub struct Mmu {
    bios: [u8; 256],
    bios_active: bool,
    cartridge: Option<Cartridge>,
    bare_rom: Vec<u8>,
    vram: [u8; 8192],
    wram: [u8; 8192],
    oam: [u8; 160],
    io: [u8; 128],
    hram: [u8; 127],
    ie: u8,
}

/// The state of the DMG memory system.
pub struct MmuView {
    pub bios: Seq<u8>,
    pub bios_active: bool,
    pub cart: Option<CartridgeView>,
    pub bare_rom: Seq<u8>,
    pub vram: Seq<u8>,
    pub wram: Seq<u8>,
    pub oam: Seq<u8>,
    pub io: Seq<u8>,
    pub hram: Seq<u8>,
    pub ie: u8,
}

impl View for Mmu {
    type V = MmuView;

    closed spec fn view(&self) -> MmuView {
        MmuView {
            bios: self.bios@,
            bios_active: self.bios_active,
            cart: match self.cartridge {
                Some(c) => Some(c@),
                None => None,
            },
            bare_rom: self.bare_rom@,
            vram: self.vram@,
            wram: self.wram@,
            oam: self.oam@,
            io: self.io@,
            hram: self.hram@,
            ie: self.ie,
        }
    }
}

impl MmuView {
    /// Array sizes.
    pub open spec fn wf(self) -> bool {
        &&& self.bios.len() == 256
        &&& self.vram.len() == 8192
        &&& self.wram.len() == 8192
        &&& self.oam.len() == 160
        &&& self.io.len() == 128
        &&& self.hram.len() == 127
    }

    /// ROM as the CPU sees it (cartridge first, else the bare image).
    pub open spec fn rom_read(self, addr: u16) -> u8 {
        match self.cart {
            Some(c) => c.mbc.read_rom(addr),
            None => byte_or_ff(self.bare_rom, addr as int),
        }
    }

    /// Cartridge RAM (0xFF without a cartridge).
    pub open spec fn eram_read(self, addr: u16) -> u8 {
        match self.cart {
            Some(c) => c.mbc.read_ram(addr),
            None => 0xFF,
        }
    }

    /// The byte the CPU reads at `addr`.
    #[verifier::opaque]
    pub open spec fn read(self, addr: u16) -> u8 {
        if addr <= 0x00FF && self.bios_active {
            self.bios[addr as int]
        } else if addr <= 0x7FFF {
            self.rom_read(addr)
        } else if addr <= 0x9FFF {
            self.vram[addr - 0x8000]
        } else if addr <= 0xBFFF {
            self.eram_read((addr - 0xA000) as u16)
        } else if addr <= 0xDFFF {
            self.wram[addr - 0xC000]
        } else if addr <= 0xFDFF {
            self.wram[addr - 0xE000]
        } else if addr <= 0xFE9F {
            self.oam[addr - 0xFE00]
        } else if addr <= 0xFEFF {
            0xFF
        } else if addr <= 0xFF7F {
            self.io[addr - 0xFF00]
        } else if addr <= 0xFFFE {
            self.hram[addr - 0xFF80]
        } else {
            self.ie
        }
    }

    /// The state after the CPU writes `value` at `addr`.
    #[verifier::opaque]
    pub open spec fn write(self, addr: u16, value: u8) -> MmuView {
        if addr <= 0x7FFF {
            match self.cart {
                Some(c) => MmuView {
                    cart: Some(CartridgeView { mbc: c.mbc.write_rom(addr, value), ..c }),
                    ..self
                },
                None => self,
            }
        } else if addr <= 0x9FFF {
            MmuView { vram: self.vram.update(addr - 0x8000, value), ..self }
        } else if addr <= 0xBFFF {
            match self.cart {
                Some(c) => MmuView {
                    cart: Some(CartridgeView { mbc: c.mbc.write_ram((addr - 0xA000) as u16, value), ..c }),
                    ..self
                },
                None => self,
            }
        } else if addr <= 0xDFFF {
            MmuView { wram: self.wram.update(addr - 0xC000, value), ..self }
        } else if addr <= 0xFDFF {
            MmuView { wram: self.wram.update(addr - 0xE000, value), ..self }
        } else if addr <= 0xFE9F {
            MmuView { oam: self.oam.update(addr - 0xFE00, value), ..self }
        } else if addr <= 0xFEFF {
            self
        } else if addr <= 0xFF7F {
            MmuView { io: self.io.update(addr - 0xFF00, value), ..self }
        } else if addr <= 0xFFFE {
            MmuView { hram: self.hram.update(addr - 0xFF80, value), ..self }
        } else {
            MmuView { ie: value, ..self }
        }
    }

    /// The little-endian word at `addr` (high byte at `addr + 1`, wrapping).
    pub open spec fn read_word(self, addr: u16) -> u16 {
        (self.read(addr) + self.read(((addr + 1) % 0x10000) as u16) * 256) as u16
    }

    /// Writing a little-endian word.
    pub open spec fn write_word(self, addr: u16, value: u16) -> MmuView {
        self.write(addr, (value % 256) as u8).write(((addr + 1) % 0x10000) as u16, (value / 256) as u8)
    }
}

/// A byte written to RAM, VRAM, OAM, I/O, HRAM or IE reads back unchanged.
pub proof fn lemma_read_after_write(m: MmuView, addr: u16, value: u8)
    requires
        m.wf(),
        0x8000 <= addr <= 0x9FFF || 0xC000 <= addr <= 0xFE9F || 0xFF00 <= addr,
    ensures
        m.write(addr, value).read(addr) == value,
{
    reveal(MmuView::read);
    reveal(MmuView::write);
}

/// A word written to WRAM or HRAM reads back: the low byte at `addr`, the
/// high byte at `addr + 1`, and the word itself.
pub proof fn lemma_word_read_after_write(m: MmuView, addr: u16, value: u16)
    requires
        m.wf(),
        (0xC000 <= addr && addr + 1 <= 0xDFFF) || (0xFF80 <= addr && addr + 1 <= 0xFFFE),
    ensures
        m.write_word(addr, value).read(addr) == value % 256,
        m.write_word(addr, value).read((addr + 1) as u16) == value / 256,
        m.write_word(addr, value).read_word(addr) == value,
{
    let lo = (value % 256) as u8;
    let hi = (value / 256) as u8;
    let m1 = m.write(addr, lo);
    let a1 = ((addr + 1) % 0x10000) as u16;
    assert(m1.wf() && m1.read(addr) == lo && m1.write(a1, hi).read(a1) == hi && m1.write(a1, hi).read(addr)
        == lo) by {
        reveal(MmuView::read);
        reveal(MmuView::write);
    }
}

/// Writes to one address leave the bytes read at the other RAM, I/O and HRAM
/// addresses unchanged.
pub proof fn lemma_write_keeps_other(m: MmuView, addr: u16, other: u16, value: u8)
    requires
        m.wf(),
        0xFF00 <= addr,
        0xFF00 <= other,
        addr != other,
    ensures
        m.write(addr, value).read(other) == m.read(other),
{
    reveal(MmuView::read);
    reveal(MmuView::write);
}

/// An I/O register reads from and writes to the I/O array.
pub proof fn lemma_io(m: MmuView, addr: u16)
    requires
        m.wf(),
        0xFF00 <= addr <= 0xFF7F,
    ensures
        m.read(addr) == m.io[addr - 0xFF00],
        forall|v: u8| #[trigger] m.write(addr, v) == (MmuView { io: m.io.update(addr - 0xFF00, v), ..m }),
{
    reveal(MmuView::read);
    reveal(MmuView::write);
}

/// VRAM reads come from the VRAM array.
pub proof fn lemma_vram_read(m: MmuView, addr: u16)
    requires
        m.wf(),
        0x8000 <= addr <= 0x9FFF,
    ensures
        m.read(addr) == m.vram[addr - 0x8000],
{
    reveal(MmuView::read);
}

impl Mmu {
    pub open spec fn wf(&self) -> bool {
        self@.wf()
    }

    /// Power-on state: no cartridge, a 32 KiB zeroed bare ROM, zeroed memory,
    /// BIOS overlay off.
    /// The memory at power-on: no BIOS overlay or cartridge, a 32 KiB
    /// zeroed bare ROM, zeroed memory, IE clear.
    pub open spec fn new_spec() -> MmuView {
        MmuView {
            bios: Seq::new(256, |i: int| 0u8),
            bios_active: false,
            cart: None,
            bare_rom: Seq::new(0x8000, |i: int| 0u8),
            vram: Seq::new(8192, |i: int| 0u8),
            wram: Seq::new(8192, |i: int| 0u8),
            oam: Seq::new(160, |i: int| 0u8),
            io: Seq::new(128, |i: int| 0u8),
            hram: Seq::new(127, |i: int| 0u8),
            ie: 0,
        }
    }

    pub fn new() -> (r: Self)
        ensures
            r.wf(),
            r@ == Mmu::new_spec(),
            r@.cart is None,
            !r@.bios_active,
            r@.bare_rom == Seq::new(0x8000, |i: int| 0u8),
            r@.vram == Seq::new(8192, |i: int| 0u8),
            r@.wram == Seq::new(8192, |i: int| 0u8),
            r@.oam == Seq::new(160, |i: int| 0u8),
            r@.io == Seq::new(128, |i: int| 0u8),
            r@.hram == Seq::new(127, |i: int| 0u8),
            r@.ie == 0,
    {
        let r = Mmu {
            bios: [0u8; 256],
            bios_active: false,
            cartridge: None,
            bare_rom: crate::mmu::zeroed(0x8000),
            vram: [0u8; 8192],
            wram: [0u8; 8192],
            oam: [0u8; 160],
            io: [0u8; 128],
            hram: [0u8; 127],
            ie: 0,
        };
        assert(r.vram@ =~= Seq::new(8192, |i: int| 0u8));
        assert(r.wram@ =~= Seq::new(8192, |i: int| 0u8));
        assert(r.oam@ =~= Seq::new(160, |i: int| 0u8));
        assert(r.io@ =~= Seq::new(128, |i: int| 0u8));
        assert(r.hram@ =~= Seq::new(127, |i: int| 0u8));
        assert(r.bios@ =~= Seq::new(256, |i: int| 0u8));
        r
    }

    /// Insert a parsed cartridge; it takes priority over the bare ROM.
    pub fn load_cartridge(&mut self, cart: Cartridge)
        ensures
            final(self)@ == (MmuView { cart: Some(cart@), ..old(self)@ }),
    {
        self.cartridge = Some(cart);
    }

    /// Use raw ROM bytes; fails on an empty image.
    pub fn load_rom(&mut self, data: &[u8]) -> (r: Result<(), String>)
        ensures
            data@.len() == 0 ==> final(self)@ == old(self)@ && (r matches Err(e) && e@
                == "ROM data must not be empty"@),
            data@.len() > 0 ==> r is Ok && final(self)@ == (MmuView { bare_rom: data@, ..old(self)@ }),
    {
        if data.len() == 0 {
            return Err(String::from_str("ROM data must not be empty"));
        }
        self.bare_rom = vstd::slice::slice_to_vec(data);
        Ok(())
    }

    /// Load a 256-byte BIOS and activate its overlay.
    pub fn load_bios(&mut self, data: &[u8]) -> (r: Result<(), String>)
        ensures
            data@.len() == 256 ==> r is Ok && final(self)@ == (MmuView {
                bios: data@,
                bios_active: true,
                ..old(self)@
            }),
            data@.len() != 256 ==> final(self)@ == old(self)@ && (r matches Err(e) && e@
                == "BIOS must be exactly 256 bytes, got "@ + decimal(data@.len())),
    {
        if data.len() != BIOS_SIZE {
            let mut e = String::from_str("BIOS must be exactly 256 bytes, got ");
            push_decimal(&mut e, data.len());
            return Err(e);
        }
        let mut i: usize = 0;
        while i < 256
            invariant
                0 <= i <= 256,
                data@.len() == 256,
                self@ == (MmuView { bios: self@.bios, ..old(self)@ }),
                self@.bios.len() == 256,
                forall|j: int| 0 <= j < i ==> self@.bios[j] == data@[j],
            decreases 256 - i,
        {
            self.bios[i] = data[i];
            i = i + 1;
        }
        assert(self@.bios =~= data@);
        self.bios_active = true;
        Ok(())
    }

    pub fn disable_bios(&mut self)
        ensures
            final(self)@ == (MmuView { bios_active: false, ..old(self)@ }),
    {
        self.bios_active = false;
    }

    pub fn bios_active(&self) -> (r: bool)
        ensures
            r == self@.bios_active,
    {
        self.bios_active
    }

    fn rom_read(&self, addr: u16) -> (r: u8)
        ensures
            r == self@.rom_read(addr),
    {
        match &self.cartridge {
            Some(cart) => cart.read_rom(addr),
            None => {
                if (addr as usize) < self.bare_rom.len() {
                    self.bare_rom[addr as usize]
                } else {
                    0xFF
                }
            },
        }
    }

    /// Writes to ROM space go to the cartridge's control registers; the bare
    /// ROM is read-only.
    fn rom_write(&mut self, addr: u16, value: u8)
        ensures
            final(self)@ == (MmuView {
                cart: match old(self)@.cart {
                    Some(c) => Some(CartridgeView { mbc: c.mbc.write_rom(addr, value), ..c }),
                    None => None,
                },
                ..old(self)@
            }),
    {
        match &mut self.cartridge {
            Some(cart) => cart.write_rom(addr, value),
            None => {},
        }
    }

    fn eram_read(&self, addr: u16) -> (r: u8)
        ensures
            r == self@.eram_read(addr),
    {
        match &self.cartridge {
            Some(cart) => cart.read_ram(addr),
            None => 0xFF,
        }
    }

    fn eram_write(&mut self, addr: u16, value: u8)
        ensures
            final(self)@ == (MmuView {
                cart: match old(self)@.cart {
                    Some(c) => Some(CartridgeView { mbc: c.mbc.write_ram(addr, value), ..c }),
                    None => None,
                },
                ..old(self)@
            }),
    {
        match &mut self.cartridge {
            Some(cart) => cart.write_ram(addr, value),
            None => {},
        }
    }

    /// The byte at `addr`.
    pub fn read_byte(&self, addr: u16) -> (r: u8)
        requires
            self.wf(),
        ensures
            r == self@.read(addr),
    {
        proof {
            reveal(MmuView::read);
        }
        if addr <= 0x00FF && self.bios_active {
            self.bios[addr as usize]
        } else if addr <= 0x7FFF {
            self.rom_read(addr)
        } else if addr <= 0x9FFF {
            self.vram[(addr - 0x8000) as usize]
        } else if addr <= 0xBFFF {
            self.eram_read(addr - 0xA000)
        } else if addr <= 0xDFFF {
            self.wram[(addr - 0xC000) as usize]
        } else if addr <= 0xFDFF {
            self.wram[(addr - 0xE000) as usize]
        } else if addr <= 0xFE9F {
            self.oam[(addr - 0xFE00) as usize]
        } else if addr <= 0xFEFF {
            0xFF
        } else if addr <= 0xFF7F {
            self.io[(addr - 0xFF00) as usize]
        } else if addr <= 0xFFFE {
            self.hram[(addr - 0xFF80) as usize]
        } else {
            self.ie
        }
    }

    /// Write `value` at `addr`.
    pub fn write_byte(&mut self, addr: u16, value: u8)
        requires
            old(self).wf(),
        ensures
            final(self).wf(),
            final(self)@ == old(self)@.write(addr, value),
    {
        proof {
            reveal(MmuView::write);
        }
        if addr <= 0x7FFF {
            self.rom_write(addr, value);
        } else if addr <= 0x9FFF {
            self.vram[(addr - 0x8000) as usize] = value;
        } else if addr <= 0xBFFF {
            self.eram_write(addr - 0xA000, value);
        } else if addr <= 0xDFFF {
            self.wram[(addr - 0xC000) as usize] = value;
        } else if addr <= 0xFDFF {
            let m = (addr - 0xE000) as usize;
            if m < 0x2000 {
                self.wram[m] = value;
            }
        } else if addr <= 0xFE9F {
            self.oam[(addr - 0xFE00) as usize] = value;
        } else if addr <= 0xFEFF {
        } else if addr <= 0xFF7F {
            self.io[(addr - 0xFF00) as usize] = value;
        } else if addr <= 0xFFFE {
            self.hram[(addr - 0xFF80) as usize] = value;
        } else {
            self.ie = value;
        }
    }

    /// The little-endian word at `addr`.
    pub fn read_word(&self, addr: u16) -> (r: u16)
        requires
            self.wf(),
        ensures
            r == self@.read_word(addr),
    {
        let lo = self.read_byte(addr) as u16;
        let hi = self.read_byte(addr.wrapping_add(1)) as u16;
        proof {
            crate::bits::lemma_join(hi, lo);
        }
        (hi << 8) | lo
    }

    /// Write a little-endian word at `addr`.
    pub fn write_word(&mut self, addr: u16, value: u16)
        requires
            old(self).wf(),
        ensures
            final(self).wf(),
            final(self)@ == old(self)@.write_word(addr, value),
    {
        proof {
            crate::bits::lemma_u16(value);
        }
        self.write_byte(addr, (value & 0xFF) as u8);
        self.write_byte(addr.wrapping_add(1), (value >> 8) as u8);
    }
}

impl Default for Mmu {
    fn default() -> (r: Self)
        ensures
            r.wf(),
    {
        Self::new()
    }
}

} // verus!
