//! Interrupt helpers for the DMG memory map: the same five sources,
//! vectors and priorities as the CGB core, acting on this core's IF and IE.

use super::mmu::{Mmu, MmuView};
use crate::cpu::interrupts::{highest_priority, source, source_mask};
use vstd::prelude::*;

verus! {

pub const IF_ADDR: u16 = 0xFF0F;
pub const IE_ADDR: u16 = 0xFFFF;

/// Requests that are both enabled and pending (5 valid bits).
pub open spec fn pending_spec(m: MmuView) -> u8 {
    m.read(IE_ADDR) & m.read(IF_ADDR) & 0x1F
}

/// The memory after requesting the sources of `mask` (IF |= mask).
pub open spec fn request_spec(m: MmuView, mask: u8) -> MmuView {
    m.write(IF_ADDR, m.read(IF_ADDR) | mask)
}

/// The memory after acknowledging the sources of `mask` (IF &= !mask).
pub open spec fn acknowledge_spec(m: MmuView, mask: u8) -> MmuView {
    m.write(IF_ADDR, m.read(IF_ADDR) & !mask)
}

/// Servicing interrupts: with IME set and something pending, IME is
/// cleared, the highest-priority request acknowledged, PC pushed and the
/// vector jumped to (20 T-cycles); anything pending clears HALT. Gives the
/// memory, IME, HALT, PC, SP and the T-cycles taken.
pub open spec fn service_spec(m: MmuView, ime: bool, halted: bool, pc: u16, sp: u16) -> (MmuView, bool, bool, u16, u16, u32) {
    let p = pending_spec(m);
    let h = halted && p == 0;
    if !ime || p == 0 {
        (m, ime, h, pc, sp, 0)
    } else {
        let k = highest_priority(p);
        let new_sp = ((sp - 2) % 0x10000) as u16;
        (acknowledge_spec(m, source_mask(k)).write_word(new_sp, pc), false, h, (0x40 + 8 * k) as u16, new_sp, 20)
    }
}

/// Request the interrupts of `mask` by setting their bits in IF.
pub fn request(mmu: &mut Mmu, mask: u8)
    requires
        old(mmu).wf(),
    ensures
        final(mmu).wf(),
        final(mmu)@ == request_spec(old(mmu)@, mask),
{
    let current = mmu.read_byte(IF_ADDR);
    mmu.write_byte(IF_ADDR, current | mask);
}

/// Clear the request bits of `mask` in IF.
pub fn acknowledge(mmu: &mut Mmu, mask: u8)
    requires
        old(mmu).wf(),
    ensures
        final(mmu).wf(),
        final(mmu)@ == acknowledge_spec(old(mmu)@, mask),
{
    let current = mmu.read_byte(IF_ADDR);
    mmu.write_byte(IF_ADDR, current & !mask);
}

/// The pending mask IE & IF & 0x1F.
pub fn pending(mmu: &Mmu) -> (r: u8)
    requires
        mmu.wf(),
    ensures
        r == pending_spec(mmu@),
{
    let ie = mmu.read_byte(IE_ADDR);
    let if_ = mmu.read_byte(IF_ADDR);
    ie & if_ & 0x1F
}

/// Service the highest-priority pending interrupt when IME is set.
/// Anything pending clears `halted`, whatever IME is. Returns the T-cycles
/// taken: 20 when an interrupt was dispatched, else 0.
pub fn service(mmu: &mut Mmu, ime: &mut bool, halted: &mut bool, pc: &mut u16, sp: &mut u16) -> (r: u32)
    requires
        old(mmu).wf(),
    ensures
        final(mmu).wf(),
        (final(mmu)@, *final(ime), *final(halted), *final(pc), *final(sp), r) == service_spec(
            old(mmu)@,
            *old(ime),
            *old(halted),
            *old(pc),
            *old(sp),
        ),
{
    let p = pending(mmu);
    if p != 0 {
        *halted = false;
    }
    if !*ime || p == 0 {
        return 0;
    }
    let mask: u8;
    let vector: u16;
    if p & source::VBLANK != 0 {
        mask = source::VBLANK;
        vector = 0x0040;
    } else if p & source::LCD_STAT != 0 {
        mask = source::LCD_STAT;
        vector = 0x0048;
    } else if p & source::TIMER != 0 {
        mask = source::TIMER;
        vector = 0x0050;
    } else if p & source::SERIAL != 0 {
        mask = source::SERIAL;
        vector = 0x0058;
    } else {
        mask = source::JOYPAD;
        vector = 0x0060;
    }
    *ime = false;
    acknowledge(mmu, mask);
    *sp = sp.wrapping_sub(2);
    mmu.write_word(*sp, *pc);
    *pc = vector;
    20
}

} // verus!
