//! Cartridges: the header, the memory bank controllers, and `Cartridge`,
//! which picks the controller named by the header.

pub mod header;
pub mod mbc0;
pub mod mbc1;
pub mod mbc2;
pub mod mbc3;
pub mod mbc5;

use header::{header_checksum, header_of, header_valid, ram_banks_spec, CartridgeHeader};
use mbc0::{Mbc0, Mbc0View};
use mbc1::{Mbc1, Mbc1View};
use mbc2::{Mbc2, Mbc2View};
use mbc3::{rtc_wf, Mbc3, Mbc3View};
use mbc5::{Mbc5, Mbc5View};
use crate::text::hex2;
use vstd::prelude::*;

verus! {

enum Mbc {
    Mbc0(Mbc0),
    Mbc1(Mbc1),
    Mbc2(Mbc2),
    Mbc3(Mbc3),
    Mbc5(Mbc5),
}

/// The state of the memory bank controller of a cartridge.
pub enum MbcView {
    Mbc0(Mbc0View),
    Mbc1(Mbc1View),
    Mbc2(Mbc2View),
    Mbc3(Mbc3View),
    Mbc5(Mbc5View),
}

/// A loaded cartridge: its parsed header and its memory bank controller.
pub struct Cartridge {
    pub header: CartridgeHeader,
    mbc: Mbc,
}

/// Which controller a cartridge type code selects (`None`: unsupported).
pub open spec fn controller_kind(t: u8) -> Option<int> {
    if t == 0x00 {
        Some(0)
    } else if 0x01 <= t <= 0x03 {
        Some(1)
    } else if t == 0x05 || t == 0x06 {
        Some(2)
    } else if 0x0F <= t <= 0x13 {
        Some(3)
    } else if 0x19 <= t <= 0x1E {
        Some(5)
    } else {
        None
    }
}

impl MbcView {
    pub open spec fn read_rom(self, addr: u16) -> u8 {
        match self {
            MbcView::Mbc0(m) => m.read_rom(addr),
            MbcView::Mbc1(m) => m.read_rom(addr),
            MbcView::Mbc2(m) => m.read_rom(addr),
            MbcView::Mbc3(m) => m.read_rom(addr),
            MbcView::Mbc5(m) => m.read_rom(addr),
        }
    }

    pub open spec fn write_rom(self, addr: u16, value: u8) -> MbcView {
        match self {
            MbcView::Mbc0(m) => MbcView::Mbc0(m),
            MbcView::Mbc1(m) => MbcView::Mbc1(m.write_rom(addr, value)),
            MbcView::Mbc2(m) => MbcView::Mbc2(m.write_rom(addr, value)),
            MbcView::Mbc3(m) => MbcView::Mbc3(m.write_rom(addr, value)),
            MbcView::Mbc5(m) => MbcView::Mbc5(m.write_rom(addr, value)),
        }
    }

    pub open spec fn read_ram(self, addr: u16) -> u8 {
        match self {
            MbcView::Mbc0(m) => 0xFF,
            MbcView::Mbc1(m) => m.read_ram(addr),
            MbcView::Mbc2(m) => m.read_ram(addr),
            MbcView::Mbc3(m) => m.read_ram(addr),
            MbcView::Mbc5(m) => m.read_ram(addr),
        }
    }

    pub open spec fn write_ram(self, addr: u16, value: u8) -> MbcView {
        match self {
            MbcView::Mbc0(m) => MbcView::Mbc0(m),
            MbcView::Mbc1(m) => MbcView::Mbc1(m.write_ram(addr, value)),
            MbcView::Mbc2(m) => MbcView::Mbc2(m.write_ram(addr, value)),
            MbcView::Mbc3(m) => MbcView::Mbc3(m.write_ram(addr, value)),
            MbcView::Mbc5(m) => MbcView::Mbc5(m.write_ram(addr, value)),
        }
    }

    /// Only MBC3 has a clock; other controllers are unchanged.
    pub open spec fn tick_rtc(self, cycles: u64) -> MbcView {
        match self {
            MbcView::Mbc3(m) => MbcView::Mbc3(m.tick_rtc(cycles)),
            _ => self,
        }
    }

    /// The controller's internal invariant (the MBC3 clock can be advanced).
    pub open spec fn wf(self) -> bool {
        match self {
            MbcView::Mbc3(m) => rtc_wf(m.rtc),
            _ => true,
        }
    }
}

/// The state of a cartridge: its header and its controller.
pub struct CartridgeView {
    pub header: CartridgeHeader,
    pub mbc: MbcView,
}

impl View for Cartridge {
    type V = CartridgeView;

    closed spec fn view(&self) -> CartridgeView {
        CartridgeView {
            header: self.header,
            mbc: match self.mbc {
                Mbc::Mbc0(m) => MbcView::Mbc0(m@),
                Mbc::Mbc1(m) => MbcView::Mbc1(m@),
                Mbc::Mbc2(m) => MbcView::Mbc2(m@),
                Mbc::Mbc3(m) => MbcView::Mbc3(m@),
                Mbc::Mbc5(m) => MbcView::Mbc5(m@),
            },
        }
    }
}

/// The controller state that `Cartridge::load` starts from for a ROM image.
pub open spec fn initial_mbc(rom: Seq<u8>) -> MbcView {
    let t = rom[0x0147];
    let banks = ram_banks_spec(rom[0x0149]);
    let ram = Seq::new(ram_size_for(banks) as nat, |i: int| 0u8);
    if t == 0x00 {
        MbcView::Mbc0(Mbc0View { rom })
    } else if 0x01 <= t <= 0x03 {
        MbcView::Mbc1(
            Mbc1View {
                rom,
                ram,
                rom_bank_lo: 1,
                rom_bank_hi: 0,
                ram_bank: 0,
                ram_enabled: false,
                mode: 0,
            },
        )
    } else if t == 0x05 || t == 0x06 {
        MbcView::Mbc2(Mbc2View { rom, ram: Seq::new(512, |i: int| 0u8), rom_bank: 1, ram_enabled: false })
    } else if 0x0F <= t <= 0x13 {
        MbcView::Mbc3(
            Mbc3View {
                rom,
                ram,
                rom_bank: 1,
                ram_bank: 0,
                ram_enabled: false,
                ram_rtc_select: 0,
                rtc: seq![0u8, 0u8, 0u8, 0u8, 0u8],
                rtc_latched: seq![0u8, 0u8, 0u8, 0u8, 0u8],
                latch_step: 0,
                rtc_cycles: 0,
            },
        )
    } else {
        MbcView::Mbc5(
            Mbc5View { rom, ram, rom_bank_lo: 1, rom_bank_hi: 0, ram_bank: 0, ram_enabled: false },
        )
    }
}

/// A ROM image `Cartridge::load` accepts: a valid header and a supported
/// controller type.
pub open spec fn loadable(rom: Seq<u8>) -> bool {
    header_valid(rom) && controller_kind(rom[0x0147]) is Some
}

/// Why `Cartridge::load` refuses a ROM image.
pub open spec fn load_error(rom: Seq<u8>) -> Seq<char> {
    if rom.len() < 0x0150 {
        "ROM too short to contain header"@
    } else if !header_valid(rom) {
        "Header checksum mismatch: expected 0x"@ + hex2(rom[0x014D]) + ", got 0x"@ + hex2(header_checksum(rom))
    } else {
        "Unsupported cartridge type: 0x"@ + hex2(rom[0x0147])
    }
}

impl Cartridge {
    /// Parse the header, check the checksum, and select the controller named
    /// by the cartridge type. Fails when the header does not parse or the
    /// type is not one of ROM only, MBC1, MBC2, MBC3 or MBC5.
    pub fn load(rom: Vec<u8>) -> (r: Result<Self, String>)
        ensures
            match r {
                Ok(c) => {
                    &&& header_valid(rom@)
                    &&& header_of(c@.header, rom@)
                    &&& controller_kind(rom@[0x0147]) is Some
                    &&& c@.mbc == initial_mbc(rom@)
                    &&& c@.mbc.wf()
                },
                Err(e) => !loadable(rom@) && e@ == load_error(rom@),
            },
    {
        let header = match CartridgeHeader::parse(rom.as_slice()) {
            Ok(h) => h,
            Err(e) => return Err(e),
        };
        let num_ram_banks = match header::ram_banks(header.ram_size_code) {
            Some(n) => n,
            None => return Err(crate::text::hex_message("Unknown RAM size code: ", header.ram_size_code)),
        };
        let t = header.cartridge_type;
        let mbc = if t == header::mbc_type::ROM_ONLY {
            Mbc::Mbc0(Mbc0::new(rom))
        } else if t == header::mbc_type::MBC1 || t == header::mbc_type::MBC1_RAM || t
            == header::mbc_type::MBC1_RAM_BATTERY {
            Mbc::Mbc1(Mbc1::new(rom, num_ram_banks))
        } else if t == header::mbc_type::MBC2 || t == header::mbc_type::MBC2_BATTERY {
            Mbc::Mbc2(Mbc2::new(rom))
        } else if t == header::mbc_type::MBC3_TIMER_BATTERY || t == header::mbc_type::MBC3_TIMER_RAM_BATTERY
            || t == header::mbc_type::MBC3 || t == header::mbc_type::MBC3_RAM || t
            == header::mbc_type::MBC3_RAM_BATTERY {
            Mbc::Mbc3(Mbc3::new(rom, num_ram_banks))
        } else if t == header::mbc_type::MBC5 || t == header::mbc_type::MBC5_RAM || t
            == header::mbc_type::MBC5_RAM_BATTERY || t == header::mbc_type::MBC5_RUMBLE || t
            == header::mbc_type::MBC5_RUMBLE_RAM || t == header::mbc_type::MBC5_RUMBLE_RAM_BATTERY {
            Mbc::Mbc5(Mbc5::new(rom, num_ram_banks))
        } else {
            let e = crate::text::hex_message("Unsupported cartridge type: ", t);
            proof {
                reveal_strlit("Unsupported cartridge type: ");
                reveal_strlit("Unsupported cartridge type: 0x");
                assert("Unsupported cartridge type: "@ + seq!['0', 'x'] =~= "Unsupported cartridge type: 0x"@);
            }
            return Err(e);
        };
        let c = Cartridge { header, mbc };
        proof {
            assert(seq![0u8, 0u8, 0u8, 0u8, 0u8][0] == 0u8);
        }
        Ok(c)
    }

    /// The parsed header.
    pub fn header_ref(&self) -> (r: &CartridgeHeader)
        ensures
            *r == self@.header,
    {
        &self.header
    }

    /// Advance the clock (MBC3 only) by `cycles` T-cycles.
    pub fn tick_rtc(&mut self, cycles: u64)
        requires
            old(self)@.mbc.wf(),
        ensures
            final(self)@.mbc == old(self)@.mbc.tick_rtc(cycles),
            final(self)@.mbc.wf(),
            final(self)@.header == old(self)@.header,
    {
        match &mut self.mbc {
            Mbc::Mbc3(m) => m.tick_rtc(cycles),
            _ => {},
        }
    }

    pub fn read_rom(&self, addr: u16) -> (r: u8)
        ensures
            r == self@.mbc.read_rom(addr),
    {
        match &self.mbc {
            Mbc::Mbc0(m) => m.read_rom(addr),
            Mbc::Mbc1(m) => m.read_rom(addr),
            Mbc::Mbc2(m) => m.read_rom(addr),
            Mbc::Mbc3(m) => m.read_rom(addr),
            Mbc::Mbc5(m) => m.read_rom(addr),
        }
    }

    pub fn write_rom(&mut self, addr: u16, value: u8)
        ensures
            final(self)@.mbc == old(self)@.mbc.write_rom(addr, value),
            final(self)@.header == old(self)@.header,
    {
        match &mut self.mbc {
            Mbc::Mbc0(m) => m.write_rom(addr, value),
            Mbc::Mbc1(m) => m.write_rom(addr, value),
            Mbc::Mbc2(m) => m.write_rom(addr, value),
            Mbc::Mbc3(m) => m.write_rom(addr, value),
            Mbc::Mbc5(m) => m.write_rom(addr, value),
        }
    }

    pub fn read_ram(&self, addr: u16) -> (r: u8)
        ensures
            r == self@.mbc.read_ram(addr),
    {
        match &self.mbc {
            Mbc::Mbc0(m) => m.read_ram(addr),
            Mbc::Mbc1(m) => m.read_ram(addr),
            Mbc::Mbc2(m) => m.read_ram(addr),
            Mbc::Mbc3(m) => m.read_ram(addr),
            Mbc::Mbc5(m) => m.read_ram(addr),
        }
    }

    pub fn write_ram(&mut self, addr: u16, value: u8)
        ensures
            final(self)@.mbc == old(self)@.mbc.write_ram(addr, value),
            final(self)@.header == old(self)@.header,
    {
        match &mut self.mbc {
            Mbc::Mbc0(m) => m.write_ram(addr, value),
            Mbc::Mbc1(m) => m.write_ram(addr, value),
            Mbc::Mbc2(m) => m.write_ram(addr, value),
            Mbc::Mbc3(m) => m.write_ram(addr, value),
            Mbc::Mbc5(m) => m.write_ram(addr, value),
        }
    }
}

/// Control-register and RAM writes keep the controller's invariant.
pub proof fn lemma_mbc_writes_keep_wf(m: MbcView, addr: u16, value: u8)
    requires
        m.wf(),
    ensures
        m.write_rom(addr, value).wf(),
        m.write_ram(addr, value).wf(),
{
    if let MbcView::Mbc3(v) = m {
        crate::bits::lemma_u8(value);
    }
}

pub const ROM_BANK_SIZE: usize = 0x4000;
pub const RAM_BANK_SIZE: usize = 0x2000;

/// The byte at index `i` of `s`, or 0xFF past its end.
pub open spec fn byte_or_ff(s: Seq<u8>, i: int) -> u8 {
    if 0 <= i < s.len() {
        s[i]
    } else {
        0xFF
    }
}

/// Number of 16 KiB banks a ROM image is treated as having (at least 2).
pub open spec fn num_rom_banks(len: nat) -> int {
    if len / 0x4000 < 2 {
        2
    } else {
        (len / 0x4000) as int
    }
}

/// Bytes of external RAM for a RAM bank count (at least one bank).
pub open spec fn ram_size_for(num_ram_banks: u8) -> int {
    0x2000 * (if num_ram_banks < 1 { 1 } else { num_ram_banks as int })
}

pub proof fn lemma_and_le(x: usize, m: usize)
    ensures
        x & m <= m,
{
    assert(x & m <= m) by (bit_vector);
}

/// The ROM byte at `base + offset`, or 0xFF past the end of the image.
pub fn rom_byte(rom: &Vec<u8>, base: usize, offset: usize) -> (r: u8)
    ensures
        r == byte_or_ff(rom@, base + offset),
{
    let len = rom.len();
    match base.checked_add(offset) {
        Some(p) => {
            if p < len {
                rom[p]
            } else {
                0xFF
            }
        },
        None => 0xFF,
    }
}

/// `max(num_ram_banks, 1)` zeroed 8 KiB RAM banks.
pub fn zeroed_ram(num_ram_banks: u8) -> (r: Vec<u8>)
    ensures
        r@ == Seq::new(ram_size_for(num_ram_banks) as nat, |i: int| 0u8),
{
    let banks: usize = if num_ram_banks < 1 { 1 } else { num_ram_banks as usize };
    let n = RAM_BANK_SIZE * banks;
    let mut v: Vec<u8> = Vec::new();
    while v.len() < n
        invariant
            v.len() <= n,
            n == ram_size_for(num_ram_banks),
            forall|i: int| 0 <= i < v.len() ==> v@[i] == 0u8,
        decreases n - v.len(),
    {
        v.push(0);
    }
    assert(v@ =~= Seq::new(ram_size_for(num_ram_banks) as nat, |i: int| 0u8));
    v
}

} // verus!
