//! Timer: DIV (0xFF04) is the upper byte of a 16-bit counter that advances
//! every T-cycle; TIMA (0xFF05) advances at the rate selected by TAC (0xFF07)
//! when TAC bit 2 is set, and on overflow reloads from TMA (0xFF06) and asks
//! for a Timer interrupt.
//!
//! TAC bits 1-0 select the period: 00 = 1024, 01 = 16, 10 = 64, 11 = 256
//! T-cycles per TIMA increment.

use crate::mmu::{Mmu, MmuView};
use vstd::prelude::*;

verus! {

pub const DIV_ADDR: u16 = 0xFF04;
pub const TIMA_ADDR: u16 = 0xFF05;
pub const TMA_ADDR: u16 = 0xFF06;
pub const TAC_ADDR: u16 = 0xFF07;

/// T-cycles per TIMA increment for a TAC value (bits 1-0).
pub open spec fn tima_period_spec(tac: u8) -> u32 {
    if tac % 4 == 0 {
        1024
    } else if tac % 4 == 1 {
        16
    } else if tac % 4 == 2 {
        64
    } else {
        256
    }
}

/// The T-cycles between TIMA increments for a TAC value.
pub fn tima_period(tac: u8) -> (r: u32)
    ensures
        r == tima_period_spec(tac),
{
    proof {
        crate::bits::lemma_u8(tac);
    }
    let sel = tac & 0x03;
    if sel == 0 {
        1024
    } else if sel == 1 {
        16
    } else if sel == 2 {
        64
    } else {
        256
    }
}

/// TIMA after `n` increments from `tima` with reload value `tma`, and whether
/// any of them overflowed.
pub open spec fn tima_run(tima: u8, tma: u8, n: nat) -> (u8, bool)
    decreases n,
{
    if n == 0 {
        (tima, false)
    } else {
        let (t, fired) = tima_run(tima, tma, (n - 1) as nat);
        if t == 0xFF {
            (tma, true)
        } else {
            ((t + 1) as u8, fired)
        }
    }
}

#[derive(Clone, Copy, Debug)]
pub struct Timer {
    div_counter: u16,
    tima_counter: u32,
}

/// The timer's internal counters.
pub struct TimerView {
    pub div_counter: u16,
    pub tima_counter: u32,
}

impl View for Timer {
    type V = TimerView;

    closed spec fn view(&self) -> TimerView {
        TimerView { div_counter: self.div_counter, tima_counter: self.tima_counter }
    }
}

/// The result of one `Timer::step`: the new counters, the new memory and
/// whether a Timer interrupt is due.
pub open spec fn timer_step(t: TimerView, m: MmuView, cycles: u32) -> (TimerView, MmuView, bool) {
    let div = ((t.div_counter + cycles) % 0x10000) as u16;
    let m1 = MmuView { io: m.io.update(4, (div / 256) as u8), ..m };
    let tac = m1.io[7];
    if tac & 0x04 == 0 {
        (TimerView { div_counter: div, ..t }, m1, false)
    } else {
        let period = tima_period_spec(tac);
        let total = t.tima_counter + cycles;
        let (tima, fired) = tima_run(m1.io[5], m1.io[6], (total / (period as int)) as nat);
        (
            TimerView { div_counter: div, tima_counter: (total % (period as int)) as u32 },
            MmuView { io: m1.io.update(5, tima), ..m1 },
            fired,
        )
    }
}

proof fn lemma_io_reg(m: MmuView, addr: u16)
    requires
        m.wf(),
        addr == 0xFF05 || addr == 0xFF06 || addr == 0xFF07,
    ensures
        m.read(addr) == m.io[addr - 0xFF00],
{
    reveal(MmuView::read);
}

proof fn lemma_write_tima(m: MmuView, v: u8)
    requires
        m.wf(),
    ensures
        m.write(TIMA_ADDR, v) == (MmuView { io: m.io.update(5, v), ..m }),
{
    reveal(MmuView::write);
}

impl Timer {
    /// Both counters at zero.
    pub fn new() -> (r: Self)
        ensures
            r@ == (TimerView { div_counter: 0, tima_counter: 0 }),
    {
        Timer { div_counter: 0, tima_counter: 0 }
    }

    /// The divider and TIMA counters.
    pub fn counters(&self) -> (r: (u16, u32))
        ensures
            r == (self@.div_counter, self@.tima_counter),
    {
        (self.div_counter, self.tima_counter)
    }

    /// A timer holding the given divider and TIMA counters.
    pub fn from_counters(div_counter: u16, tima_counter: u32) -> (r: Self)
        ensures
            r@ == (TimerView { div_counter, tima_counter }),
    {
        Timer { div_counter, tima_counter }
    }

    /// The DIV register: the upper byte of the divider counter.
    pub fn div(&self) -> (r: u8)
        ensures
            r == self@.div_counter / 256,
    {
        proof {
            let d = self.div_counter;
            crate::bits::lemma_u16(d);
        }
        (self.div_counter >> 8) as u8
    }

    /// Reset the divider and the TIMA accumulator (a write to DIV).
    pub fn reset_div(&mut self)
        ensures
            final(self)@ == (TimerView { div_counter: 0, tima_counter: 0 }),
    {
        self.div_counter = 0;
        self.tima_counter = 0;
    }

    /// Advance by `cycles` T-cycles: DIV always advances and is stored in
    /// 0xFF04; when TAC enables the timer, TIMA advances once per period,
    /// reloading from TMA on overflow. Returns whether TIMA overflowed.
    pub fn step(&mut self, cycles: u32, mmu: &mut Mmu) -> (r: bool)
        requires
            old(mmu).wf(),
        ensures
            final(mmu).wf(),
            (final(self)@, final(mmu)@, r) == timer_step(old(self)@, old(mmu)@, cycles),
    {
        proof {
            let dc = self.div_counter;
            crate::bits::lemma_u32(cycles);
            assert(dc.wrapping_add(cycles as u16) == (dc + cycles) % 0x10000);
        }
        self.div_counter = self.div_counter.wrapping_add(cycles as u16);
        let d = self.div();
        mmu.set_div(d);
        proof {
            lemma_io_reg(mmu@, TAC_ADDR);
        }
        let tac = mmu.read_byte(TAC_ADDR);
        if tac & 0x04 == 0 {
            return false;
        }
        let period = tima_period(tac);
        let mut total: u64 = self.tima_counter as u64 + cycles as u64;
        let ghost m1 = mmu@;
        let ghost t0 = total as int;
        let ghost mut n: nat = 0;
        let mut interrupt = false;
        assert(m1.io.update(5, m1.io[5]) =~= m1.io);
        while total >= period as u64
            invariant
                m1.wf(),
                mmu.wf(),
                period == tima_period_spec(m1.io[7]),
                period > 0,
                total as int == t0 - n * period,
                total >= 0,
                mmu@ == (MmuView { io: m1.io.update(5, tima_run(m1.io[5], m1.io[6], n).0), ..m1 }),
                interrupt == tima_run(m1.io[5], m1.io[6], n).1,
            decreases total,
        {
            total = total - period as u64;
            proof {
                lemma_io_reg(mmu@, TIMA_ADDR);
                lemma_io_reg(mmu@, TMA_ADDR);
            }
            let tima = mmu.read_byte(TIMA_ADDR);
            if tima == 0xFF {
                let tma = mmu.read_byte(TMA_ADDR);
                proof {
                    lemma_write_tima(mmu@, tma);
                }
                mmu.write_byte(TIMA_ADDR, tma);
                interrupt = true;
            } else {
                proof {
                    lemma_write_tima(mmu@, (tima + 1) as u8);
                }
                mmu.write_byte(TIMA_ADDR, tima + 1);
            }
            proof {
                n = n + 1;
                assert(mmu@.io =~= m1.io.update(5, tima_run(m1.io[5], m1.io[6], n).0));
            }
        }
        proof {
            let p = period as int;
            assert(n == t0 / p && total == t0 % p) by (nonlinear_arith)
                requires
                    total as int == t0 - n * p,
                    0 <= total < p,
            ;
        }
        self.tima_counter = total as u32;
        interrupt
    }
}

impl Default for Timer {
    fn default() -> (r: Self)
        ensures
            r@ == (TimerView { div_counter: 0, tima_counter: 0 }),
    {
        Self::new()
    }
}

} // verus!
