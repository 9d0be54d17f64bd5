//! MBC5: up to 8 MiB ROM (512 banks) and up to 128 KiB RAM (16 banks).
//! Bank 0 is always at 0x0000-0x3FFF and there is no banking mode.
//!
//! Control registers:
//!   0x0000-0x1FFF  RAM enable (0x0A in the lower nibble enables)
//!   0x2000-0x2FFF  ROM bank, low 8 bits
//!   0x3000-0x3FFF  ROM bank, bit 8
//!   0x4000-0x5FFF  RAM bank (4 bits)

use super::{byte_or_ff, lemma_and_le, num_rom_banks, ram_size_for, ROM_BANK_SIZE, RAM_BANK_SIZE};
use vstd::prelude::*;

verus! {

pub struct Mbc5 {
    rom: Vec<u8>,
    ram: Vec<u8>,
    rom_bank_lo: u8,
    rom_bank_hi: u8,
    ram_bank: u8,
    ram_enabled: bool,
}

/// The state of an MBC5 cartridge.
pub struct Mbc5View {
    pub rom: Seq<u8>,
    pub ram: Seq<u8>,
    pub rom_bank_lo: u8,
    pub rom_bank_hi: u8,
    pub ram_bank: u8,
    pub ram_enabled: bool,
}

impl View for Mbc5 {
    type V = Mbc5View;

    closed spec fn view(&self) -> Mbc5View {
        Mbc5View {
            rom: self.rom@,
            ram: self.ram@,
            rom_bank_lo: self.rom_bank_lo,
            rom_bank_hi: self.rom_bank_hi,
            ram_bank: self.ram_bank,
            ram_enabled: self.ram_enabled,
        }
    }
}

impl Mbc5View {
    pub open spec fn rom_bank_n_index(self) -> usize {
        (((self.rom_bank_hi as usize) << 8usize) | (self.rom_bank_lo as usize)) & ((num_rom_banks(
            self.rom.len(),
        ) - 1) as usize)
    }

    pub open spec fn read_rom(self, addr: u16) -> u8 {
        if addr < 0x4000 {
            byte_or_ff(self.rom, addr as int)
        } else {
            byte_or_ff(self.rom, self.rom_bank_n_index() * 0x4000 + (addr - 0x4000))
        }
    }

    pub open spec fn write_rom(self, addr: u16, value: u8) -> Mbc5View {
        if addr <= 0x1FFF {
            Mbc5View { ram_enabled: value & 0x0F == 0x0A, ..self }
        } else if addr <= 0x2FFF {
            Mbc5View { rom_bank_lo: value, ..self }
        } else if addr <= 0x3FFF {
            Mbc5View { rom_bank_hi: value & 0x01, ..self }
        } else if addr <= 0x5FFF {
            Mbc5View { ram_bank: value & 0x0F, ..self }
        } else {
            self
        }
    }

    pub open spec fn read_ram(self, addr: u16) -> u8 {
        if !self.ram_enabled {
            0xFF
        } else {
            byte_or_ff(self.ram, self.ram_bank * 0x2000 + addr)
        }
    }

    pub open spec fn write_ram(self, addr: u16, value: u8) -> Mbc5View {
        let i = self.ram_bank * 0x2000 + addr;
        if self.ram_enabled && i < self.ram.len() {
            Mbc5View { ram: self.ram.update(i, value), ..self }
        } else {
            self
        }
    }
}

impl Mbc5 {
    /// A fresh MBC5: ROM bank 1, RAM disabled, `max(num_ram_banks, 1)` zeroed RAM banks.
    pub fn new(rom: Vec<u8>, num_ram_banks: u8) -> (r: Self)
        ensures
            r@ == (Mbc5View {
                rom: rom@,
                ram: Seq::new(ram_size_for(num_ram_banks) as nat, |i: int| 0u8),
                rom_bank_lo: 1,
                rom_bank_hi: 0,
                ram_bank: 0,
                ram_enabled: false,
            }),
    {
        let ram = super::zeroed_ram(num_ram_banks);
        Mbc5 { rom, ram, rom_bank_lo: 1, rom_bank_hi: 0, ram_bank: 0, ram_enabled: false }
    }

    /// Physical bank 0 is always mapped at 0x0000-0x3FFF.
    pub fn rom_bank_0_index(&self) -> (r: usize)
        ensures
            r == 0,
    {
        0
    }

    pub fn rom_bank_n_index(&self) -> (r: usize)
        ensures
            r == self@.rom_bank_n_index(),
            (r + 1) * 0x4000 <= if self@.rom.len() < 0x8000 { 0x8000 } else { self@.rom.len() },
    {
        let n = self.rom.len() / ROM_BANK_SIZE;
        let num_banks = if n < 2 { 2 } else { n };
        let bank = ((self.rom_bank_hi as usize) << 8) | (self.rom_bank_lo as usize);
        proof {
            lemma_and_le(bank, (num_banks - 1) as usize);
        }
        bank & (num_banks - 1)
    }

    pub fn read_rom(&self, addr: u16) -> (r: u8)
        ensures
            r == self@.read_rom(addr),
    {
        if addr < 0x4000 {
            super::rom_byte(&self.rom, self.rom_bank_0_index(), addr as usize)
        } else {
            let bank = self.rom_bank_n_index();
            let _len = self.rom.len();
            super::rom_byte(&self.rom, bank * ROM_BANK_SIZE, (addr as usize) - 0x4000)
        }
    }

    pub fn write_rom(&mut self, addr: u16, value: u8)
        ensures
            final(self)@ == old(self)@.write_rom(addr, value),
    {
        if addr <= 0x1FFF {
            self.ram_enabled = (value & 0x0F) == 0x0A;
        } else if addr <= 0x2FFF {
            self.rom_bank_lo = value;
        } else if addr <= 0x3FFF {
            self.rom_bank_hi = value & 0x01;
        } else if addr <= 0x5FFF {
            self.ram_bank = value & 0x0F;
        }
    }

    pub fn read_ram(&self, addr: u16) -> (r: u8)
        ensures
            r == self@.read_ram(addr),
    {
        if !self.ram_enabled {
            return 0xFF;
        }
        let offset = self.ram_bank as usize * RAM_BANK_SIZE + addr as usize;
        if offset < self.ram.len() {
            self.ram[offset]
        } else {
            0xFF
        }
    }

    pub fn write_ram(&mut self, addr: u16, value: u8)
        ensures
            final(self)@ == old(self)@.write_ram(addr, value),
    {
        if !self.ram_enabled {
            return;
        }
        let offset = self.ram_bank as usize * RAM_BANK_SIZE + addr as usize;
        if offset < self.ram.len() {
            self.ram[offset] = value;
        }
    }
}

/// With RAM enabled, a byte written to external RAM reads back unchanged.
pub proof fn lemma_mbc5_ram_read_after_write(m: Mbc5View, addr: u16, value: u8)
    requires
        m.ram_enabled,
        m.ram_bank * 0x2000 + addr < m.ram.len(),
    ensures
        m.write_ram(addr, value).read_ram(addr) == value,
{
}

} // verus!
