//! MBC1: up to 2 MiB ROM (128 banks of 16 KiB) and up to 32 KiB RAM
//! (4 banks of 8 KiB).
//!
//! Control registers, written through ROM space:
//!   0x0000-0x1FFF  RAM enable (0x0A in the lower nibble enables)
//!   0x2000-0x3FFF  ROM bank, low 5 bits (0 selects 1)
//!   0x4000-0x5FFF  ROM bank high 2 bits / RAM bank
//!   0x6000-0x7FFF  banking mode: 0 = ROM mode, 1 = RAM mode

use super::{byte_or_ff, lemma_and_le, num_rom_banks, ram_size_for, ROM_BANK_SIZE, RAM_BANK_SIZE};
use vstd::prelude::*;

verus! {

pub struct Mbc1 {
    rom: Vec<u8>,
    ram: Vec<u8>,
    rom_bank_lo: u8,
    rom_bank_hi: u8,
    ram_bank: u8,
    ram_enabled: bool,
    /// Banking mode: 0 = ROM mode, 1 = RAM mode.
    pub mode: u8,
}

/// The state of an MBC1 cartridge.
pub struct Mbc1View {
    pub rom: Seq<u8>,
    pub ram: Seq<u8>,
    pub rom_bank_lo: u8,
    pub rom_bank_hi: u8,
    pub ram_bank: u8,
    pub ram_enabled: bool,
    pub mode: u8,
}

impl View for Mbc1 {
    type V = Mbc1View;

    closed spec fn view(&self) -> Mbc1View {
        Mbc1View {
            rom: self.rom@,
            ram: self.ram@,
            rom_bank_lo: self.rom_bank_lo,
            rom_bank_hi: self.rom_bank_hi,
            ram_bank: self.ram_bank,
            ram_enabled: self.ram_enabled,
            mode: self.mode,
        }
    }
}

impl Mbc1View {
    /// Mask that keeps a bank number within the banks present in the ROM.
    pub open spec fn rom_bank_mask(self) -> usize {
        (num_rom_banks(self.rom.len()) - 1) as usize
    }

    /// Bank seen through 0x0000-0x3FFF: 0 in RAM mode, else the high bits.
    pub open spec fn rom_bank_0_index(self) -> usize {
        if self.mode == 1 {
            0
        } else {
            ((self.rom_bank_hi as usize) << 5usize) & self.rom_bank_mask()
        }
    }

    /// Bank seen through 0x4000-0x7FFF.
    pub open spec fn rom_bank_n_index(self) -> usize {
        (((self.rom_bank_hi as usize) << 5usize) | (self.rom_bank_lo as usize)) & self.rom_bank_mask()
    }

    /// RAM bank in use: the selected bank in RAM mode, else 0.
    pub open spec fn ram_bank_index(self) -> int {
        if self.mode == 1 {
            self.ram_bank as int
        } else {
            0
        }
    }

    pub open spec fn read_rom(self, addr: u16) -> u8 {
        if addr < 0x4000 {
            byte_or_ff(self.rom, self.rom_bank_0_index() * 0x4000 + addr)
        } else {
            byte_or_ff(self.rom, self.rom_bank_n_index() * 0x4000 + (addr - 0x4000))
        }
    }

    pub open spec fn write_rom(self, addr: u16, value: u8) -> Mbc1View {
        if addr <= 0x1FFF {
            Mbc1View { ram_enabled: value & 0x0F == 0x0A, ..self }
        } else if addr <= 0x3FFF {
            Mbc1View { rom_bank_lo: if value & 0x1F == 0 { 1 } else { value & 0x1F }, ..self }
        } else if addr <= 0x5FFF {
            Mbc1View { rom_bank_hi: value & 0x03, ram_bank: value & 0x03, ..self }
        } else if addr <= 0x7FFF {
            Mbc1View { mode: value & 0x01, ..self }
        } else {
            self
        }
    }

    pub open spec fn read_ram(self, addr: u16) -> u8 {
        if !self.ram_enabled {
            0xFF
        } else {
            byte_or_ff(self.ram, self.ram_bank_index() * 0x2000 + addr)
        }
    }

    pub open spec fn write_ram(self, addr: u16, value: u8) -> Mbc1View {
        let i = self.ram_bank_index() * 0x2000 + addr;
        if self.ram_enabled && i < self.ram.len() {
            Mbc1View { ram: self.ram.update(i, value), ..self }
        } else {
            self
        }
    }
}

impl Mbc1 {
    /// A fresh MBC1: ROM bank 1 selected, RAM disabled, ROM mode, and
    /// `max(num_ram_banks, 1)` zeroed 8 KiB RAM banks.
    pub fn new(rom: Vec<u8>, num_ram_banks: u8) -> (r: Self)
        ensures
            r@ == (Mbc1View {
                rom: rom@,
                ram: Seq::new(ram_size_for(num_ram_banks) as nat, |i: int| 0u8),
                rom_bank_lo: 1,
                rom_bank_hi: 0,
                ram_bank: 0,
                ram_enabled: false,
                mode: 0,
            }),
    {
        let ram = super::zeroed_ram(num_ram_banks);
        Mbc1 { rom, ram, rom_bank_lo: 1, rom_bank_hi: 0, ram_bank: 0, ram_enabled: false, mode: 0 }
    }

    pub fn rom_bank_mask(&self) -> (r: usize)
        ensures
            r == self@.rom_bank_mask(),
            (r + 1) * 0x4000 <= if self@.rom.len() < 0x8000 { 0x8000 } else { self@.rom.len() },
    {
        let n = self.rom.len() / ROM_BANK_SIZE;
        let num_banks = if n < 2 { 2 } else { n };
        num_banks - 1
    }

    pub fn rom_bank_0_index(&self) -> (r: usize)
        ensures
            r == self@.rom_bank_0_index(),
            r <= self@.rom_bank_mask(),
    {
        if self.mode == 1 {
            0
        } else {
            let m = self.rom_bank_mask();
            let b = (self.rom_bank_hi as usize) << 5;
            proof {
                lemma_and_le(b, m);
            }
            b & m
        }
    }

    pub fn rom_bank_n_index(&self) -> (r: usize)
        ensures
            r == self@.rom_bank_n_index(),
            r <= self@.rom_bank_mask(),
    {
        let m = self.rom_bank_mask();
        let b = ((self.rom_bank_hi as usize) << 5) | (self.rom_bank_lo as usize);
        proof {
            lemma_and_le(b, m);
        }
        b & m
    }

    pub fn ram_bank_index(&self) -> (r: usize)
        ensures
            r == self@.ram_bank_index(),
    {
        if self.mode == 1 {
            self.ram_bank as usize
        } else {
            0
        }
    }

    pub fn read_rom(&self, addr: u16) -> (r: u8)
        ensures
            r == self@.read_rom(addr),
    {
        let m = self.rom_bank_mask();
        let len = self.rom.len();
        let bank: usize;
        let offset: usize;
        if addr < 0x4000 {
            bank = self.rom_bank_0_index();
            offset = addr as usize;
        } else {
            bank = self.rom_bank_n_index();
            offset = (addr as usize) - 0x4000;
        }
        assert(bank <= m);
        super::rom_byte(&self.rom, bank * ROM_BANK_SIZE, offset)
    }

    pub fn write_rom(&mut self, addr: u16, value: u8)
        ensures
            final(self)@ == old(self)@.write_rom(addr, value),
    {
        if addr <= 0x1FFF {
            self.ram_enabled = (value & 0x0F) == 0x0A;
        } else if addr <= 0x3FFF {
            let lo = value & 0x1F;
            self.rom_bank_lo = if lo == 0 { 1 } else { lo };
        } else if addr <= 0x5FFF {
            let hi = value & 0x03;
            self.rom_bank_hi = hi;
            self.ram_bank = hi;
        } else if addr <= 0x7FFF {
            self.mode = value & 0x01;
        }
    }

    pub fn read_ram(&self, addr: u16) -> (r: u8)
        ensures
            r == self@.read_ram(addr),
    {
        if !self.ram_enabled {
            return 0xFF;
        }
        let offset = self.ram_bank_index() * RAM_BANK_SIZE + (addr as usize);
        if offset < self.ram.len() {
            self.ram[offset]
        } else {
            0xFF
        }
    }

    pub fn write_ram(&mut self, addr: u16, value: u8)
        ensures
            final(self)@ == old(self)@.write_ram(addr, value),
    {
        if !self.ram_enabled {
            return;
        }
        let offset = self.ram_bank_index() * RAM_BANK_SIZE + (addr as usize);
        if offset < self.ram.len() {
            self.ram[offset] = value;
        }
    }
}

/// With RAM enabled, a byte written to external RAM reads back unchanged
/// (where the address falls inside the RAM that is present).
pub proof fn lemma_mbc1_ram_read_after_write(m: Mbc1View, addr: u16, value: u8)
    requires
        m.ram_enabled,
        m.ram_bank_index() * 0x2000 + addr < m.ram.len(),
    ensures
        m.write_ram(addr, value).read_ram(addr) == value,
{
}

/// Writes to the control registers never change the ROM or RAM contents.
pub proof fn lemma_mbc1_control_keeps_memory(m: Mbc1View, addr: u16, value: u8)
    ensures
        m.write_rom(addr, value).rom == m.rom,
        m.write_rom(addr, value).ram == m.ram,
{
}

} // verus!
