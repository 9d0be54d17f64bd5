//! The DMG core's cartridge: ROM-only and MBC1 cartridges.

use crate::cartridge::header::{header_of, header_valid, mbc_type, ram_banks, ram_banks_spec, CartridgeHeader};
use crate::cartridge::mbc0::{Mbc0, Mbc0View};
use crate::cartridge::mbc1::{Mbc1, Mbc1View};
use crate::cartridge::{initial_mbc, CartridgeView, MbcView};
use crate::text::{hex2, hex_message};
use vstd::prelude::*;

verus! {

enum Mbc {
    Mbc0(Mbc0),
    Mbc1(Mbc1),
}

/// A loaded cartridge: parsed header and active controller.
pub struct Cartridge {
    pub header: CartridgeHeader,
    mbc: Mbc,
}

impl View for Cartridge {
    type V = CartridgeView;

    closed spec fn view(&self) -> CartridgeView {
        CartridgeView {
            header: self.header,
            mbc: match self.mbc {
                Mbc::Mbc0(m) => MbcView::Mbc0(m@),
                Mbc::Mbc1(m) => MbcView::Mbc1(m@),
            },
        }
    }
}

/// The cartridge types this core supports: ROM only and MBC1 (with RAM and battery).
pub open spec fn supported_type(t: u8) -> bool {
    t <= 0x03
}

impl Cartridge {
    /// Parse the ROM and select its controller. Fails when the header does
    /// not parse or the type is neither ROM only nor MBC1.
    pub fn load(rom: Vec<u8>) -> (r: Result<Self, String>)
        ensures
            match r {
                Ok(c) => {
                    &&& header_valid(rom@)
                    &&& header_of(c@.header, rom@)
                    &&& supported_type(rom@[0x0147])
                    &&& c@.mbc == initial_mbc(rom@)
                },
                Err(e) => !header_valid(rom@) || (!supported_type(rom@[0x0147]) && e@
                    == "Unsupported cartridge type: 0x"@ + hex2(rom@[0x0147])),
            },
    {
        let header = match CartridgeHeader::parse(rom.as_slice()) {
            Ok(h) => h,
            Err(e) => return Err(e),
        };
        let num_ram_banks = match ram_banks(header.ram_size_code) {
            Some(n) => n,
            None => return Err(hex_message("Unknown RAM size code: ", header.ram_size_code)),
        };
        let t = header.cartridge_type;
        let mbc = if t == mbc_type::ROM_ONLY {
            Mbc::Mbc0(Mbc0::new(rom))
        } else if t == mbc_type::MBC1 || t == mbc_type::MBC1_RAM || t == mbc_type::MBC1_RAM_BATTERY {
            Mbc::Mbc1(Mbc1::new(rom, num_ram_banks))
        } else {
            let e = hex_message("Unsupported cartridge type: ", t);
            proof {
                reveal_strlit("Unsupported cartridge type: ");
                reveal_strlit("Unsupported cartridge type: 0x");
                assert("Unsupported cartridge type: "@ + seq!['0', 'x'] =~= "Unsupported cartridge type: 0x"@);
            }
            return Err(e);
        };
        Ok(Cartridge { header, mbc })
    }

    /// The parsed header.
    pub fn header_ref(&self) -> (r: &CartridgeHeader)
        ensures
            *r == self@.header,
    {
        &self.header
    }

    pub fn read_rom(&self, addr: u16) -> (r: u8)
        ensures
            r == self@.mbc.read_rom(addr),
    {
        match &self.mbc {
            Mbc::Mbc0(m) => m.read_rom(addr),
            Mbc::Mbc1(m) => m.read_rom(addr),
        }
    }

    pub fn write_rom(&mut self, addr: u16, value: u8)
        ensures
            final(self)@.mbc == old(self)@.mbc.write_rom(addr, value),
            final(self)@.header == old(self)@.header,
    {
        match &mut self.mbc {
            Mbc::Mbc0(m) => m.write_rom(addr, value),
            Mbc::Mbc1(m) => m.write_rom(addr, value),
        }
    }

    pub fn read_ram(&self, addr: u16) -> (r: u8)
        ensures
            r == self@.mbc.read_ram(addr),
    {
        match &self.mbc {
            Mbc::Mbc0(m) => m.read_ram(addr),
            Mbc::Mbc1(m) => m.read_ram(addr),
        }
    }

    pub fn write_ram(&mut self, addr: u16, value: u8)
        ensures
            final(self)@.mbc == old(self)@.mbc.write_ram(addr, value),
            final(self)@.header == old(self)@.header,
    {
        match &mut self.mbc {
            Mbc::Mbc0(m) => m.write_ram(addr, value),
            Mbc::Mbc1(m) => m.write_ram(addr, value),
        }
    }
}

} // verus!
