//! MBC0: plain ROM of at most 32 KiB, no RAM and no bank switching.
//! Writes to ROM space are ignored.

use super::byte_or_ff;
use vstd::prelude::*;

verus! {

pub struct Mbc0 {
    rom: Vec<u8>,
}

/// The state of an MBC0 cartridge.
pub struct Mbc0View {
    pub rom: Seq<u8>,
}

impl View for Mbc0 {
    type V = Mbc0View;

    closed spec fn view(&self) -> Mbc0View {
        Mbc0View { rom: self.rom@ }
    }
}

impl Mbc0View {
    /// Reading ROM: the byte at `addr`, or 0xFF past the end of the image.
    pub open spec fn read_rom(self, addr: u16) -> u8 {
        byte_or_ff(self.rom, addr as int)
    }
}

impl Mbc0 {
    pub fn new(rom: Vec<u8>) -> (r: Self)
        ensures
            r@.rom == rom@,
    {
        Mbc0 { rom }
    }

    pub fn read_rom(&self, addr: u16) -> (r: u8)
        ensures
            r == self@.read_rom(addr),
    {
        let i = addr as usize;
        if i < self.rom.len() {
            self.rom[i]
        } else {
            0xFF
        }
    }

    /// Writes to ROM space are ignored on MBC0 hardware.
    pub fn write_rom(&mut self, _addr: u16, _value: u8)
        ensures
            final(self)@ == old(self)@,
    {
    }

    /// There is no external RAM: reads give 0xFF.
    pub fn read_ram(&self, _addr: u16) -> (r: u8)
        ensures
            r == 0xFF,
    {
        0xFF
    }

    pub fn write_ram(&mut self, _addr: u16, _value: u8)
        ensures
            final(self)@ == old(self)@,
    {
    }
}

} // verus!
