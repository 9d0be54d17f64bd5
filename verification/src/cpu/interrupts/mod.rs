//! Interrupt controller: five sources with fixed vectors, in priority order
//! VBlank (0x0040), LCD STAT (0x0048), Timer (0x0050), Serial (0x0058),
//! Joypad (0x0060). IF (0xFF0F) holds requests, IE (0xFFFF) enables.
//!
//! An interrupt is serviced when IME is set and IE & IF is non-zero: IME is
//! cleared, the request bit is cleared, PC is pushed and the CPU jumps to the
//! vector, taking 20 T-cycles. Anything pending wakes the CPU from HALT.

pub mod source;

use crate::mmu::{Mmu, MmuView};
use vstd::prelude::*;

verus! {

pub const IF_ADDR: u16 = 0xFF0F;
pub const IE_ADDR: u16 = 0xFFFF;

/// Requests that are both enabled and pending (5 valid bits).
pub open spec fn pending_spec(m: MmuView) -> u8 {
    m.read(IE_ADDR) & m.read(IF_ADDR) & 0x1F
}

/// The index (0-4) of the highest-priority interrupt in a pending mask.
pub open spec fn highest_priority(p: u8) -> int {
    if p & 0x01 != 0 {
        0
    } else if p & 0x02 != 0 {
        1
    } else if p & 0x04 != 0 {
        2
    } else if p & 0x08 != 0 {
        3
    } else {
        4
    }
}

/// The IF bit of interrupt `k`.
pub open spec fn source_mask(k: int) -> u8 {
    if k == 0 {
        0x01
    } else if k == 1 {
        0x02
    } else if k == 2 {
        0x04
    } else if k == 3 {
        0x08
    } else {
        0x10
    }
}

/// The interrupt served first is the lowest set bit of the pending mask:
/// its source bit (`1 << k`) is pending and no lower-numbered source is.
pub proof fn lemma_highest_priority(p: u8)
    requires
        p & 0x1F != 0,
    ensures
        0 <= highest_priority(p) <= 4,
        source_mask(highest_priority(p)) == 1u8 << (highest_priority(p) as u8),
        p & source_mask(highest_priority(p)) != 0,
        p & ((source_mask(highest_priority(p)) - 1) as u8) == 0,
{
    assert(p & 0x1F != 0 && p & 0x01 == 0 && p & 0x02 == 0 && p & 0x04 == 0 && p & 0x08 == 0 ==> p & 0x10 != 0
        && p & 0x0F == 0) by (bit_vector);
    assert(p & 0x00 == 0) by (bit_vector);
    assert(p & 0x01 == 0 && p & 0x02 == 0 ==> p & 0x03 == 0) by (bit_vector);
    assert(p & 0x01 == 0 && p & 0x02 == 0 && p & 0x04 == 0 ==> p & 0x07 == 0) by (bit_vector);
    assert(1u8 << 0u8 == 1 && 1u8 << 1u8 == 2 && 1u8 << 2u8 == 4 && 1u8 << 3u8 == 8 && 1u8 << 4u8 == 16)
        by (bit_vector);
}

/// The memory after requesting the sources of `mask` (IF |= mask).
pub open spec fn request_spec(m: MmuView, mask: u8) -> MmuView {
    m.write(IF_ADDR, m.read(IF_ADDR) | mask)
}

/// The memory after acknowledging the sources of `mask` (IF &= !mask).
pub open spec fn acknowledge_spec(m: MmuView, mask: u8) -> MmuView {
    m.write(IF_ADDR, m.read(IF_ADDR) & !mask)
}

/// Servicing interrupts: with IME set and something pending, IME is
/// cleared, the highest-priority request acknowledged, PC pushed and the
/// vector jumped to (20 T-cycles); anything pending clears HALT. Gives the
/// memory, IME, HALT, PC, SP and the T-cycles taken.
pub open spec fn service_spec(m: MmuView, ime: bool, halted: bool, pc: u16, sp: u16) -> (MmuView, bool, bool, u16, u16, u32) {
    let p = pending_spec(m);
    let h = halted && p == 0;
    if !ime || p == 0 {
        (m, ime, h, pc, sp, 0)
    } else {
        let k = highest_priority(p);
        let new_sp = ((sp - 2) % 0x10000) as u16;
        (acknowledge_spec(m, source_mask(k)).write_word(new_sp, pc), false, h, (0x40 + 8 * k) as u16, new_sp, 20)
    }
}

/// Request the interrupts of `mask` by setting their bits in IF.
pub fn request(mmu: &mut Mmu, mask: u8)
    requires
        old(mmu).wf(),
    ensures
        final(mmu).wf(),
        final(mmu)@ == request_spec(old(mmu)@, mask),
{
    let current = mmu.read_byte(IF_ADDR);
    mmu.write_byte(IF_ADDR, current | mask);
}

/// Clear the request bits of `mask` in IF.
pub fn acknowledge(mmu: &mut Mmu, mask: u8)
    requires
        old(mmu).wf(),
    ensures
        final(mmu).wf(),
        final(mmu)@ == acknowledge_spec(old(mmu)@, mask),
{
    let current = mmu.read_byte(IF_ADDR);
    mmu.write_byte(IF_ADDR, current & !mask);
}

/// The pending mask IE & IF & 0x1F.
pub fn pending(mmu: &Mmu) -> (r: u8)
    requires
        mmu.wf(),
    ensures
        r == pending_spec(mmu@),
{
    let ie = mmu.read_byte(IE_ADDR);
    let if_ = mmu.read_byte(IF_ADDR);
    ie & if_ & 0x1F
}

/// Service the highest-priority pending interrupt when IME is set.
/// Anything pending clears `halted`, whatever IME is. Returns the T-cycles
/// taken: 20 when an interrupt was dispatched, else 0.
pub fn service(mmu: &mut Mmu, ime: &mut bool, halted: &mut bool, pc: &mut u16, sp: &mut u16) -> (r: u32)
    requires
        old(mmu).wf(),
    ensures
        final(mmu).wf(),
        (final(mmu)@, *final(ime), *final(halted), *final(pc), *final(sp), r) == service_spec(
            old(mmu)@,
            *old(ime),
            *old(halted),
            *old(pc),
            *old(sp),
        ),
{
    let p = pending(mmu);
    if p != 0 {
        *halted = false;
    }
    if !*ime || p == 0 {
        return 0;
    }
    let mask: u8;
    let vector: u16;
    if p & source::VBLANK != 0 {
        mask = source::VBLANK;
        vector = 0x0040;
    } else if p & source::LCD_STAT != 0 {
        mask = source::LCD_STAT;
        vector = 0x0048;
    } else if p & source::TIMER != 0 {
        mask = source::TIMER;
        vector = 0x0050;
    } else if p & source::SERIAL != 0 {
        mask = source::SERIAL;
        vector = 0x0058;
    } else {
        mask = source::JOYPAD;
        vector = 0x0060;
    }
    *ime = false;
    acknowledge(mmu, mask);
    *sp = sp.wrapping_sub(2);
    mmu.write_word(*sp, *pc);
    *pc = vector;
    20
}

/// Requesting an interrupt keeps the other requested bits and sets the new
/// ones; acknowledging clears exactly the given bits.
pub proof fn lemma_request_acknowledge_bits(iflag: u8, mask: u8, k: u8)
    by (bit_vector)
    ensures
        (iflag | mask) & k == (iflag & k) | (mask & k),
        (iflag & !mask) & k == (iflag & k) & !mask,
{
}

} // verus!
