//! MBC2: up to 256 KiB ROM (16 banks) and a built-in RAM of 512 four-bit
//! cells; the upper nibble of a RAM read is always 0xF.
//!
//! Writes to 0x0000-0x3FFF: address bit 8 clear enables/disables RAM
//! (0x0A in the lower nibble enables); bit 8 set selects the ROM bank
//! (lower 4 bits, 0 selects 1). RAM is mirrored every 512 bytes.

use super::{byte_or_ff, lemma_and_le, num_rom_banks, ROM_BANK_SIZE};
use vstd::prelude::*;

verus! {

/// Number of RAM cells.
pub const MBC2_RAM_SIZE: usize = 512;

pub struct Mbc2 {
    rom: Vec<u8>,
    ram: [u8; 512],
    rom_bank: u8,
    ram_enabled: bool,
}

/// The state of an MBC2 cartridge.
pub struct Mbc2View {
    pub rom: Seq<u8>,
    pub ram: Seq<u8>,
    pub rom_bank: u8,
    pub ram_enabled: bool,
}

impl View for Mbc2 {
    type V = Mbc2View;

    closed spec fn view(&self) -> Mbc2View {
        Mbc2View { rom: self.rom@, ram: self.ram@, rom_bank: self.rom_bank, ram_enabled: self.ram_enabled }
    }
}

impl Mbc2View {
    pub open spec fn rom_bank_index(self) -> usize {
        (self.rom_bank as usize) & ((num_rom_banks(self.rom.len()) - 1) as usize)
    }

    pub open spec fn read_rom(self, addr: u16) -> u8 {
        if addr < 0x4000 {
            byte_or_ff(self.rom, addr as int)
        } else {
            byte_or_ff(self.rom, self.rom_bank_index() * 0x4000 + (addr - 0x4000))
        }
    }

    pub open spec fn write_rom(self, addr: u16, value: u8) -> Mbc2View {
        if addr & 0x0100 == 0 {
            Mbc2View { ram_enabled: value & 0x0F == 0x0A, ..self }
        } else {
            Mbc2View { rom_bank: if value & 0x0F == 0 { 1 } else { value & 0x0F }, ..self }
        }
    }

    pub open spec fn read_ram(self, addr: u16) -> u8 {
        if !self.ram_enabled {
            0xFF
        } else {
            0xF0 | (self.ram[(addr % 512) as int] & 0x0F)
        }
    }

    pub open spec fn write_ram(self, addr: u16, value: u8) -> Mbc2View {
        if !self.ram_enabled {
            self
        } else {
            Mbc2View { ram: self.ram.update((addr % 512) as int, value & 0x0F), ..self }
        }
    }
}

impl Mbc2 {
    /// A fresh MBC2: ROM bank 1, RAM disabled and zeroed.
    pub fn new(rom: Vec<u8>) -> (r: Self)
        ensures
            r@ == (Mbc2View { rom: rom@, ram: Seq::new(512, |i: int| 0u8), rom_bank: 1, ram_enabled: false }),
    {
        let r = Mbc2 { rom, ram: [0u8; 512], rom_bank: 1, ram_enabled: false };
        assert(r.ram@ =~= Seq::new(512, |i: int| 0u8));
        r
    }

    pub fn rom_bank_index(&self) -> (r: usize)
        ensures
            r == self@.rom_bank_index(),
            (r + 1) * 0x4000 <= if self@.rom.len() < 0x8000 { 0x8000 } else { self@.rom.len() },
    {
        let n = self.rom.len() / ROM_BANK_SIZE;
        let num_banks = if n < 2 { 2 } else { n };
        proof {
            lemma_and_le(self.rom_bank as usize, (num_banks - 1) as usize);
        }
        (self.rom_bank as usize) & (num_banks - 1)
    }

    pub fn read_rom(&self, addr: u16) -> (r: u8)
        ensures
            r == self@.read_rom(addr),
    {
        if addr < 0x4000 {
            super::rom_byte(&self.rom, 0, addr as usize)
        } else {
            let bank = self.rom_bank_index();
            let _len = self.rom.len();
            super::rom_byte(&self.rom, bank * ROM_BANK_SIZE, (addr as usize) - 0x4000)
        }
    }

    pub fn write_rom(&mut self, addr: u16, value: u8)
        ensures
            final(self)@ == old(self)@.write_rom(addr, value),
    {
        if addr & 0x0100 == 0 {
            self.ram_enabled = (value & 0x0F) == 0x0A;
        } else {
            let bank = value & 0x0F;
            self.rom_bank = if bank == 0 { 1 } else { bank };
        }
    }

    pub fn read_ram(&self, addr: u16) -> (r: u8)
        ensures
            r == self@.read_ram(addr),
    {
        if !self.ram_enabled {
            return 0xFF;
        }
        let offset = (addr as usize) % MBC2_RAM_SIZE;
        0xF0 | (self.ram[offset] & 0x0F)
    }

    pub fn write_ram(&mut self, addr: u16, value: u8)
        ensures
            final(self)@ == old(self)@.write_ram(addr, value),
    {
        if !self.ram_enabled {
            return;
        }
        let offset = (addr as usize) % MBC2_RAM_SIZE;
        self.ram[offset] = value & 0x0F;
        assert(self@.ram =~= old(self)@.ram.update((addr % 512) as int, value & 0x0F));
    }
}

/// With RAM enabled, the lower nibble written to a cell reads back, under an
/// upper nibble of 0xF, at that address and at every address 512 apart.
pub proof fn lemma_mbc2_ram_read_after_write(m: Mbc2View, addr: u16, other: u16, value: u8)
    requires
        m.ram_enabled,
        m.ram.len() == 512,
        addr % 512 == other % 512,
    ensures
        m.write_ram(addr, value).read_ram(other) == 0xF0 | (value & 0x0F),
{
    crate::bits::lemma_u8(value);
    crate::bits::lemma_u8(value & 0x0F);
}

} // verus!
