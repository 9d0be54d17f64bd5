//! MBC3: up to 2 MiB ROM (128 banks), up to 32 KiB RAM (4 banks) and a
//! real-time clock with five registers: seconds, minutes, hours, day low,
//! day high/flags (bit 0 day bit 8, bit 6 halt, bit 7 day carry).
//!
//! Control registers:
//!   0x0000-0x1FFF  RAM + RTC enable (0x0A enables)
//!   0x2000-0x3FFF  ROM bank (7 bits, 0 selects 1)
//!   0x4000-0x5FFF  0x00-0x03 selects a RAM bank, 0x08-0x0C an RTC register
//!   0x6000-0x7FFF  writing 0x00 then 0x01 latches the clock

use super::{byte_or_ff, lemma_and_le, num_rom_banks, ram_size_for, ROM_BANK_SIZE, RAM_BANK_SIZE};
use vstd::prelude::*;

verus! {

pub const RTC_S: usize = 0;
pub const RTC_M: usize = 1;
pub const RTC_H: usize = 2;
pub const RTC_DL: usize = 3;
pub const RTC_DH: usize = 4;

/// T-cycles in one second of emulated time.
pub const CYCLES_PER_SECOND: u64 = 4194304;

pub struct Mbc3 {
    rom: Vec<u8>,
    ram: Vec<u8>,
    rom_bank: u8,
    ram_bank: u8,
    ram_enabled: bool,
    ram_rtc_select: u8,
    /// The running clock registers (S, M, H, DL, DH).
    pub rtc: [u8; 5],
    rtc_latched: [u8; 5],
    latch_step: u8,
    rtc_cycles: u64,
}

/// The state of an MBC3 cartridge.
pub struct Mbc3View {
    pub rom: Seq<u8>,
    pub ram: Seq<u8>,
    pub rom_bank: u8,
    pub ram_bank: u8,
    pub ram_enabled: bool,
    pub ram_rtc_select: u8,
    pub rtc: Seq<u8>,
    pub rtc_latched: Seq<u8>,
    pub latch_step: u8,
    pub rtc_cycles: u64,
}

impl View for Mbc3 {
    type V = Mbc3View;

    closed spec fn view(&self) -> Mbc3View {
        Mbc3View {
            rom: self.rom@,
            ram: self.ram@,
            rom_bank: self.rom_bank,
            ram_bank: self.ram_bank,
            ram_enabled: self.ram_enabled,
            ram_rtc_select: self.ram_rtc_select,
            rtc: self.rtc@,
            rtc_latched: self.rtc_latched@,
            latch_step: self.latch_step,
            rtc_cycles: self.rtc_cycles,
        }
    }
}

/// The 9-bit day counter held in DL and bit 0 of DH.
pub open spec fn day_of(rtc: Seq<u8>) -> int {
    rtc[3] + (rtc[4] & 0x01) * 256
}

/// The clock registers after storing day number `day`: DL and bit 0 of DH take
/// its low 9 bits, and the carry bit (DH bit 7) is set when it exceeds 511.
pub open spec fn with_day(rtc: Seq<u8>, day: u16) -> Seq<u8> {
    let dh = if day > 511 { rtc[4] | 0x80 } else { rtc[4] };
    let d = day & 0x1FF;
    rtc.update(3, (d & 0xFF) as u8).update(4, (dh & 0xFE) | (((d >> 8u16) as u8) & 0x01))
}

/// The clock registers one second later: seconds roll over at 60 into
/// minutes, minutes at 60 into hours, hours at 24 into the day counter.
pub open spec fn rtc_tick(rtc: Seq<u8>) -> Seq<u8> {
    if rtc[0] + 1 < 60 {
        rtc.update(0, (rtc[0] + 1) as u8)
    } else if rtc[1] + 1 < 60 {
        rtc.update(0, 0).update(1, (rtc[1] + 1) as u8)
    } else if rtc[2] + 1 < 24 {
        rtc.update(0, 0).update(1, 0).update(2, (rtc[2] + 1) as u8)
    } else {
        with_day(rtc.update(0, 0).update(1, 0).update(2, 0), (day_of(rtc) + 1) as u16)
    }
}

/// The clock registers `n` seconds later.
pub open spec fn rtc_advance(rtc: Seq<u8>, n: nat) -> Seq<u8>
    decreases n,
{
    if n == 0 {
        rtc
    } else {
        rtc_tick(rtc_advance(rtc, (n - 1) as nat))
    }
}

/// The seconds, minutes and hours registers can each be incremented without
/// overflowing a byte.
pub open spec fn rtc_wf(rtc: Seq<u8>) -> bool {
    rtc.len() == 5 && rtc[0] < 255 && rtc[1] < 255 && rtc[2] < 255
}

/// A value the clock register `reg` (0 seconds, 1 minutes, 2 hours, 3 day
/// low, 4 day high / halt / carry) can hold: seconds and minutes below 60,
/// hours below 24, any day-low byte, and only bits 0, 6 and 7 of the high
/// register.
pub open spec fn clock_value(reg: int, v: u8) -> bool {
    if reg == 0 || reg == 1 {
        v < 60
    } else if reg == 2 {
        v < 24
    } else if reg == 3 {
        true
    } else {
        v == v & 0xC1
    }
}

/// With RAM enabled and clock register `sel` (0x08-0x0C) selected, writing a
/// value that register can hold stores exactly that value and leaves the
/// other registers alone; after a latch (0x00 then 0x01 to 0x6000-0x7FFF)
/// a read gives the value back.
pub proof fn lemma_rtc_write_then_read(m: Mbc3View, addr: u16, v: u8)
    requires
        m.ram_enabled,
        0x08 <= m.ram_rtc_select <= 0x0C,
        m.rtc.len() == 5,
        clock_value(m.ram_rtc_select - 0x08, v),
    ensures
        m.write_ram(addr, v).rtc == m.rtc.update(m.ram_rtc_select - 0x08, v),
        m.write_ram(addr, v).write_rom(0x6000, 0x00).write_rom(0x6000, 0x01).read_ram(addr) == v,
{
    assert(v < 60 ==> v & 0x3F == v) by (bit_vector);
    assert(v < 24 ==> v & 0x1F == v) by (bit_vector);
    let w = m.write_ram(addr, v);
    assert(w.rtc =~= m.rtc.update(m.ram_rtc_select - 0x08, v));
}

proof fn lemma_rtc_tick_wf(rtc: Seq<u8>)
    requires
        rtc_wf(rtc),
    ensures
        rtc_wf(rtc_tick(rtc)),
        rtc_tick(rtc)[4] & 0x40 == rtc[4] & 0x40,
{
    let dh = rtc[4];
    crate::bits::lemma_u8_pair(dh, 0);
    assert forall|x: u8, b: u8| #![auto] ((x & 0xFE) | (b & 0x01)) & 0x40 == x & 0x40 by {
        crate::bits::lemma_u8_pair(x, b);
    }
}

impl Mbc3View {
    pub open spec fn read_rom(self, addr: u16) -> u8 {
        if addr < 0x4000 {
            byte_or_ff(self.rom, addr as int)
        } else {
            byte_or_ff(
                self.rom,
                ((self.rom_bank as usize) & ((num_rom_banks(self.rom.len()) - 1) as usize)) * 0x4000 + (
                addr - 0x4000),
            )
        }
    }

    pub open spec fn write_rom(self, addr: u16, value: u8) -> Mbc3View {
        if addr <= 0x1FFF {
            Mbc3View { ram_enabled: value & 0x0F == 0x0A, ..self }
        } else if addr <= 0x3FFF {
            Mbc3View { rom_bank: if value & 0x7F == 0 { 1 } else { value & 0x7F }, ..self }
        } else if addr <= 0x5FFF {
            Mbc3View {
                ram_rtc_select: value,
                ram_bank: if value <= 0x03 { value } else { self.ram_bank },
                ..self
            }
        } else if addr <= 0x7FFF {
            if value == 0x00 {
                Mbc3View { latch_step: 1, ..self }
            } else if value == 0x01 && self.latch_step == 1 {
                Mbc3View { rtc_latched: self.rtc, latch_step: 0, ..self }
            } else {
                Mbc3View { latch_step: 0, ..self }
            }
        } else {
            self
        }
    }

    pub open spec fn read_ram(self, addr: u16) -> u8 {
        if !self.ram_enabled {
            0xFF
        } else if self.ram_rtc_select <= 0x03 {
            byte_or_ff(self.ram, self.ram_bank * 0x2000 + addr)
        } else if 0x08 <= self.ram_rtc_select <= 0x0C {
            self.rtc_latched[self.ram_rtc_select - 0x08]
        } else {
            0xFF
        }
    }

    pub open spec fn write_ram(self, addr: u16, value: u8) -> Mbc3View {
        if !self.ram_enabled {
            self
        } else if self.ram_rtc_select <= 0x03 {
            let i = self.ram_bank * 0x2000 + addr;
            if i < self.ram.len() {
                Mbc3View { ram: self.ram.update(i, value), ..self }
            } else {
                self
            }
        } else if self.ram_rtc_select == 0x08 {
            Mbc3View { rtc: self.rtc.update(0, value & 0x3F), ..self }
        } else if self.ram_rtc_select == 0x09 {
            Mbc3View { rtc: self.rtc.update(1, value & 0x3F), ..self }
        } else if self.ram_rtc_select == 0x0A {
            Mbc3View { rtc: self.rtc.update(2, value & 0x1F), ..self }
        } else if self.ram_rtc_select == 0x0B {
            Mbc3View { rtc: self.rtc.update(3, value), ..self }
        } else if self.ram_rtc_select == 0x0C {
            Mbc3View { rtc: self.rtc.update(4, value & 0xC1), ..self }
        } else {
            self
        }
    }

    /// The clock after `cycles` more T-cycles: unchanged while halted (DH bit
    /// 6), else advanced by every whole second accumulated.
    pub open spec fn tick_rtc(self, cycles: u64) -> Mbc3View {
        if self.rtc[4] & 0x40 != 0 {
            self
        } else {
            let total = self.rtc_cycles + cycles;
            Mbc3View {
                rtc: rtc_advance(self.rtc, (total / 4194304) as nat),
                rtc_cycles: (total % 4194304) as u64,
                ..self
            }
        }
    }
}

impl Mbc3 {
    /// Set the running clock registers (S, M, H, DL, DH).
    pub fn set_rtc(&mut self, rtc: [u8; 5])
        ensures
            final(self)@ == (Mbc3View { rtc: rtc@, ..old(self)@ }),
    {
        self.rtc = rtc;
    }

    /// A fresh MBC3: ROM bank 1, RAM disabled and zeroed, clock at zero.
    pub fn new(rom: Vec<u8>, num_ram_banks: u8) -> (r: Self)
        ensures
            r@ == (Mbc3View {
                rom: rom@,
                ram: Seq::new(ram_size_for(num_ram_banks) as nat, |i: int| 0u8),
                rom_bank: 1,
                ram_bank: 0,
                ram_enabled: false,
                ram_rtc_select: 0,
                rtc: seq![0u8, 0u8, 0u8, 0u8, 0u8],
                rtc_latched: seq![0u8, 0u8, 0u8, 0u8, 0u8],
                latch_step: 0,
                rtc_cycles: 0,
            }),
    {
        let ram = super::zeroed_ram(num_ram_banks);
        let r = Mbc3 {
            rom,
            ram,
            rom_bank: 1,
            ram_bank: 0,
            ram_enabled: false,
            ram_rtc_select: 0,
            rtc: [0u8; 5],
            rtc_latched: [0u8; 5],
            latch_step: 0,
            rtc_cycles: 0,
        };
        assert(r.rtc@ =~= seq![0u8, 0u8, 0u8, 0u8, 0u8]);
        assert(r.rtc_latched@ =~= seq![0u8, 0u8, 0u8, 0u8, 0u8]);
        r
    }

    /// Advance the clock by `cycles` T-cycles (4,194,304 per second); it does
    /// not run while the halt flag (DH bit 6) is set.
    pub fn tick_rtc(&mut self, cycles: u64)
        requires
            rtc_wf(old(self)@.rtc),
        ensures
            final(self)@ == old(self)@.tick_rtc(cycles),
            rtc_wf(final(self)@.rtc),
    {
        if self.rtc[RTC_DH] & 0x40 != 0 {
            return;
        }
        let mut total: u128 = self.rtc_cycles as u128 + cycles as u128;
        let ghost start = self.rtc@;
        let ghost t0 = total as int;
        let ghost mut done: nat = 0;
        while total >= CYCLES_PER_SECOND as u128
            invariant
                self.rtc@ == rtc_advance(start, done),
                rtc_wf(self.rtc@),
                total as int == t0 - done * 4194304,
                total as int >= 0,
                self.rtc[4] & 0x40 == 0,
                self.rom@ == old(self)@.rom,
                self.ram@ == old(self)@.ram,
                self.rom_bank == old(self)@.rom_bank,
                self.ram_bank == old(self)@.ram_bank,
                self.ram_enabled == old(self)@.ram_enabled,
                self.ram_rtc_select == old(self)@.ram_rtc_select,
                self.rtc_latched@ == old(self)@.rtc_latched,
                self.latch_step == old(self)@.latch_step,
            decreases total,
        {
            total = total - CYCLES_PER_SECOND as u128;
            proof {
                lemma_rtc_tick_wf(self.rtc@);
            }
            self.increment_rtc();
            proof {
                done = done + 1;
            }
        }
        proof {
            assert(done == t0 / 4194304 && total == t0 % 4194304) by (nonlinear_arith)
                requires
                    total as int == t0 - done * 4194304,
                    0 <= total < 4194304,
            ;
        }
        self.rtc_cycles = total as u64;
    }

    /// One second of clock time.
    pub fn increment_rtc(&mut self)
        requires
            rtc_wf(old(self)@.rtc),
        ensures
            final(self)@.rtc == rtc_tick(old(self)@.rtc),
            final(self)@ == (Mbc3View { rtc: final(self)@.rtc, ..old(self)@ }),
    {
        self.rtc[RTC_S] += 1;
        if self.rtc[RTC_S] >= 60 {
            self.rtc[RTC_S] = 0;
            self.rtc[RTC_M] += 1;
            if self.rtc[RTC_M] >= 60 {
                self.rtc[RTC_M] = 0;
                self.rtc[RTC_H] += 1;
                if self.rtc[RTC_H] >= 24 {
                    self.rtc[RTC_H] = 0;
                    let day = self.day_counter() + 1;
                    self.set_day_counter(day);
                }
            }
        }
        assert(self.rtc@ =~= rtc_tick(old(self).rtc@));
    }

    /// The 9-bit day counter.
    pub fn day_counter(&self) -> (r: u16)
        ensures
            r == day_of(self@.rtc),
            r <= 511,
    {
        let dh = self.rtc[RTC_DH];
        let dl = self.rtc[RTC_DL];
        proof {
            crate::bits::lemma_u8_pair(dl, dh);
            crate::bits::lemma_u8(dh);
        }
        (dl as u16) | ((dh as u16 & 0x01) << 8)
    }

    /// Store the day counter; days past 511 set the carry bit.
    pub fn set_day_counter(&mut self, day: u16)
        ensures
            final(self)@.rtc == with_day(old(self)@.rtc, day),
            final(self)@ == (Mbc3View { rtc: final(self)@.rtc, ..old(self)@ }),
    {
        if day > 511 {
            self.rtc[RTC_DH] = self.rtc[RTC_DH] | 0x80;
        }
        let d = day & 0x1FF;
        self.rtc[RTC_DL] = (d & 0xFF) as u8;
        self.rtc[RTC_DH] = (self.rtc[RTC_DH] & 0xFE) | ((d >> 8) as u8 & 0x01);
        assert(self.rtc@ =~= with_day(old(self).rtc@, day));
    }

    pub fn read_rom(&self, addr: u16) -> (r: u8)
        ensures
            r == self@.read_rom(addr),
    {
        if addr < 0x4000 {
            super::rom_byte(&self.rom, 0, addr as usize)
        } else {
            let len = self.rom.len();
            let n = len / ROM_BANK_SIZE;
            let num_banks = if n < 2 { 2 } else { n };
            proof {
                lemma_and_le(self.rom_bank as usize, (num_banks - 1) as usize);
            }
            let b = (self.rom_bank as usize) & (num_banks - 1);
            super::rom_byte(&self.rom, b * ROM_BANK_SIZE, (addr as usize) - 0x4000)
        }
    }

    pub fn write_rom(&mut self, addr: u16, value: u8)
        ensures
            final(self)@ == old(self)@.write_rom(addr, value),
    {
        if addr <= 0x1FFF {
            self.ram_enabled = (value & 0x0F) == 0x0A;
        } else if addr <= 0x3FFF {
            let bank = value & 0x7F;
            self.rom_bank = if bank == 0 { 1 } else { bank };
        } else if addr <= 0x5FFF {
            self.ram_rtc_select = value;
            if value <= 0x03 {
                self.ram_bank = value;
            }
        } else if addr <= 0x7FFF {
            if value == 0x00 {
                self.latch_step = 1;
            } else if value == 0x01 && self.latch_step == 1 {
                self.rtc_latched = self.rtc;
                self.latch_step = 0;
            } else {
                self.latch_step = 0;
            }
        }
    }

    pub fn read_ram(&self, addr: u16) -> (r: u8)
        ensures
            r == self@.read_ram(addr),
    {
        if !self.ram_enabled {
            return 0xFF;
        }
        let sel = self.ram_rtc_select;
        if sel <= 0x03 {
            let offset = self.ram_bank as usize * RAM_BANK_SIZE + addr as usize;
            if offset < self.ram.len() {
                self.ram[offset]
            } else {
                0xFF
            }
        } else if sel == 0x08 {
            self.rtc_latched[RTC_S]
        } else if sel == 0x09 {
            self.rtc_latched[RTC_M]
        } else if sel == 0x0A {
            self.rtc_latched[RTC_H]
        } else if sel == 0x0B {
            self.rtc_latched[RTC_DL]
        } else if sel == 0x0C {
            self.rtc_latched[RTC_DH]
        } else {
            0xFF
        }
    }

    pub fn write_ram(&mut self, addr: u16, value: u8)
        ensures
            final(self)@ == old(self)@.write_ram(addr, value),
    {
        if !self.ram_enabled {
            return;
        }
        let sel = self.ram_rtc_select;
        if sel <= 0x03 {
            let offset = self.ram_bank as usize * RAM_BANK_SIZE + addr as usize;
            if offset < self.ram.len() {
                self.ram[offset] = value;
            }
        } else if sel == 0x08 {
            self.rtc[RTC_S] = value & 0x3F;
        } else if sel == 0x09 {
            self.rtc[RTC_M] = value & 0x3F;
        } else if sel == 0x0A {
            self.rtc[RTC_H] = value & 0x1F;
        } else if sel == 0x0B {
            self.rtc[RTC_DL] = value;
        } else if sel == 0x0C {
            self.rtc[RTC_DH] = value & 0xC1;
        }
        assert(self@.rtc =~= old(self)@.write_ram(addr, value).rtc);
    }
}

/// A latch (0x00 then 0x01 written to 0x6000-0x7FFF) copies the running clock
/// into the registers that RAM reads return.
pub proof fn lemma_mbc3_latch_copies_clock(m: Mbc3View)
    ensures
        m.write_rom(0x6000, 0x00).write_rom(0x6000, 0x01).rtc_latched == m.rtc,
{
}

/// With RAM enabled and a RAM bank selected, a byte written reads back.
pub proof fn lemma_mbc3_ram_read_after_write(m: Mbc3View, addr: u16, value: u8)
    requires
        m.ram_enabled,
        m.ram_rtc_select <= 0x03,
        m.ram_bank * 0x2000 + addr < m.ram.len(),
    ensures
        m.write_ram(addr, value).read_ram(addr) == value,
{
}

} // verus!
