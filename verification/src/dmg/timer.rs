//! The DMG core's timer. It keeps the same counters as the CGB core's timer
//! but publishes DIV through an ordinary write to 0xFF04 on its own memory
//! map.

use super::mmu::{lemma_io, Mmu, MmuView};
use crate::timer::{tima_period, tima_period_spec, tima_run, TimerView};
use vstd::prelude::*;

verus! {

pub const DIV_ADDR: u16 = 0xFF04;
pub const TIMA_ADDR: u16 = 0xFF05;
pub const TMA_ADDR: u16 = 0xFF06;
pub const TAC_ADDR: u16 = 0xFF07;

pub struct Timer {
    div_counter: u16,
    tima_counter: u32,
}

impl View for Timer {
    type V = TimerView;

    closed spec fn view(&self) -> TimerView {
        TimerView { div_counter: self.div_counter, tima_counter: self.tima_counter }
    }
}

/// The result of one `Timer::step` on the DMG memory map: the new counters,
/// the new memory and whether a Timer interrupt is due.
pub open spec fn timer_step(t: TimerView, m: MmuView, cycles: u32) -> (TimerView, MmuView, bool) {
    let div = ((t.div_counter + cycles) % 0x10000) as u16;
    let m1 = MmuView { io: m.io.update(4, (div / 256) as u8), ..m };
    let tac = m1.io[7];
    if tac & 0x04 == 0 {
        (TimerView { div_counter: div, ..t }, m1, false)
    } else {
        let period = tima_period_spec(tac);
        let total = t.tima_counter + cycles;
        let (tima, fired) = tima_run(m1.io[5], m1.io[6], (total / (period as int)) as nat);
        (
            TimerView { div_counter: div, tima_counter: (total % (period as int)) as u32 },
            MmuView { io: m1.io.update(5, tima), ..m1 },
            fired,
        )
    }
}

impl Timer {
    /// Both counters at zero.
    pub fn new() -> (r: Self)
        ensures
            r@ == (TimerView { div_counter: 0, tima_counter: 0 }),
    {
        Timer { div_counter: 0, tima_counter: 0 }
    }

    /// The DIV register: the upper byte of the divider counter.
    pub fn div(&self) -> (r: u8)
        ensures
            r == self@.div_counter / 256,
    {
        proof {
            let d = self.div_counter;
            crate::bits::lemma_u16(d);
        }
        (self.div_counter >> 8) as u8
    }

    /// Reset the divider and the TIMA accumulator (a write to DIV).
    pub fn reset_div(&mut self)
        ensures
            final(self)@ == (TimerView { div_counter: 0, tima_counter: 0 }),
    {
        self.div_counter = 0;
        self.tima_counter = 0;
    }

    /// Advance by `cycles` T-cycles: DIV always advances and is written to
    /// 0xFF04; when TAC enables the timer, TIMA advances once per period,
    /// reloading from TMA on overflow. Returns whether TIMA overflowed.
    pub fn step(&mut self, cycles: u32, mmu: &mut Mmu) -> (r: bool)
        requires
            old(mmu).wf(),
        ensures
            final(mmu).wf(),
            (final(self)@, final(mmu)@, r) == timer_step(old(self)@, old(mmu)@, cycles),
    {
        proof {
            let dc = self.div_counter;
            crate::bits::lemma_u32(cycles);
            assert(dc.wrapping_add(cycles as u16) == (dc + cycles) % 0x10000);
            lemma_io(mmu@, DIV_ADDR);
        }
        self.div_counter = self.div_counter.wrapping_add(cycles as u16);
        let d = self.div();
        mmu.write_byte(DIV_ADDR, d);
        proof {
            lemma_io(mmu@, TAC_ADDR);
        }
        let tac = mmu.read_byte(TAC_ADDR);
        if tac & 0x04 == 0 {
            return false;
        }
        let period = tima_period(tac);
        let mut total: u64 = self.tima_counter as u64 + cycles as u64;
        let ghost m1 = mmu@;
        let ghost t0 = total as int;
        let ghost mut n: nat = 0;
        let mut interrupt = false;
        assert(m1.io.update(5, m1.io[5]) =~= m1.io);
        while total >= period as u64
            invariant
                m1.wf(),
                mmu.wf(),
                period == tima_period_spec(m1.io[7]),
                period > 0,
                total as int == t0 - n * period,
                total >= 0,
                mmu@ == (MmuView { io: m1.io.update(5, tima_run(m1.io[5], m1.io[6], n).0), ..m1 }),
                interrupt == tima_run(m1.io[5], m1.io[6], n).1,
            decreases total,
        {
            total = total - period as u64;
            proof {
                lemma_io(mmu@, TIMA_ADDR);
                lemma_io(mmu@, TMA_ADDR);
            }
            let tima = mmu.read_byte(TIMA_ADDR);
            if tima == 0xFF {
                let tma = mmu.read_byte(TMA_ADDR);
                mmu.write_byte(TIMA_ADDR, tma);
                interrupt = true;
            } else {
                mmu.write_byte(TIMA_ADDR, tima + 1);
            }
            proof {
                let p = period as int;
                let k = n as int;
                assert(t0 - (k + 1) * p == t0 - k * p - p) by (nonlinear_arith);
                n = n + 1;
                assert(mmu@.io =~= m1.io.update(5, tima_run(m1.io[5], m1.io[6], n).0));
            }
        }
        proof {
            let p = period as int;
            assert(n == t0 / p && total == t0 % p) by (nonlinear_arith)
                requires
                    total as int == t0 - n * p,
                    0 <= total < p,
            ;
        }
        self.tima_counter = total as u32;
        interrupt
    }
}

impl Default for Timer {
    fn default() -> (r: Self)
        ensures
            r@ == (TimerView { div_counter: 0, tima_counter: 0 }),
    {
        Self::new()
    }
}

} // verus!
