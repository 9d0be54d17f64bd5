//! Running the machine one video frame at a time.

use crate::cpu::{lemma_tick_advances, tick_defined, tick_spec, Cpu, MachineView};
use crate::ppu::PpuView;
use vstd::prelude::*;

verus! {

/// T-cycles in one full frame (154 lines of 456 T-cycles).
pub const CYCLES_PER_FRAME: u64 = 70_224;

/// The cycle budget of a frame run: one frame and one more line.
pub open spec fn frame_limit(cycles: u64) -> int {
    cycles + CYCLES_PER_FRAME + 456
}

/// The machine with the PPU's frame-completed flag cleared.
pub open spec fn without_frame_flag(mv: MachineView) -> MachineView {
    MachineView { ppu: PpuView { frame_ready: false, ..mv.ppu }, ..mv }
}

/// Tick from `mv` until the PPU completes a frame (the flag is then cleared
/// and the answer is `true`) or the cycle counter reaches `limit` (`false`);
/// `None` where a tick on the way would overflow one of the machine's
/// counters.
pub open spec fn run_until_frame(mv: MachineView, limit: int) -> Option<(MachineView, bool)>
    decreases limit - mv.cycles,
{
    if !tick_defined(mv) {
        None
    } else {
        let m1 = tick_spec(mv).0;
        if m1.ppu.frame_ready {
            Some((without_frame_flag(m1), true))
        } else if m1.cycles >= limit {
            Some((m1, false))
        } else {
            proof {
                lemma_tick_advances(mv);
            }
            run_until_frame(m1, limit)
        }
    }
}

/// A frame run that ends (without counter overflow) leaves the frame flag
/// clear, has advanced the cycle counter, and reports `false` only when the
/// counter reached the limit.
pub proof fn lemma_frame_run_outcome(mv: MachineView, limit: int)
    ensures
        run_until_frame(mv, limit) matches Some((m, done)) ==> {
            &&& !m.ppu.frame_ready
            &&& m.cycles > mv.cycles
            &&& !done ==> m.cycles >= limit
        },
    decreases limit - mv.cycles,
{
    if tick_defined(mv) {
        lemma_tick_advances(mv);
        let m1 = tick_spec(mv).0;
        if !m1.ppu.frame_ready && m1.cycles < limit {
            lemma_frame_run_outcome(m1, limit);
        }
    }
}

/// Tick `cpu` until the PPU completes a frame, clearing its flag (`true`),
/// or until the cycle counter reaches `limit` (`false`). Where a tick would
/// overflow one of the machine's counters the run stops there with `false`.
pub fn run_until_frame_exec(cpu: &mut Cpu, limit: u64) -> (r: bool)
    requires
        old(cpu).wf(),
    ensures
        final(cpu).wf(),
        match run_until_frame(old(cpu).machine(), limit as int) {
            Some((m, b)) => final(cpu).machine() == m && r == b,
            None => !r,
        },
{
    let ghost result = run_until_frame(cpu.machine(), limit as int);
    loop
        invariant
            cpu.wf(),
            run_until_frame(cpu.machine(), limit as int) == result,
            result == run_until_frame(old(cpu).machine(), limit as int),
        decreases limit - cpu.cycles,
    {
        let ghost before = cpu.machine();
        match cpu.try_tick() {
            None => {
                return false;
            },
            Some(_) => {},
        }
        proof {
            lemma_tick_advances(before);
        }
        if cpu.ppu.is_frame_ready() {
            cpu.ppu.clear_frame_ready();
            return true;
        }
        if cpu.cycles >= limit {
            return false;
        }
    }
}

/// Drives the CPU one frame per call: until the PPU signals VBlank, or
/// for at most one frame and one line of T-cycles (so that a machine with
/// the LCD off still returns).
pub struct FrameRunner {
    pub cpu: Cpu,
    /// Frames completed so far.
    pub frame_count: u64,
}

impl FrameRunner {
    /// A runner for `cpu` that has completed no frame.
    pub fn new(cpu: Cpu) -> (r: Self)
        ensures
            r.cpu == cpu,
            r.frame_count == 0,
    {
        FrameRunner { cpu, frame_count: 0 }
    }

    /// Run until the next VBlank (`true`, counting the frame) or until one
    /// frame and one line of T-cycles have passed (`false`).
    pub fn run_frame(&mut self) -> (r: bool)
        requires
            old(self).cpu.wf(),
            frame_limit(old(self).cpu.cycles) <= u64::MAX,
            old(self).frame_count < u64::MAX,
        ensures
            final(self).cpu.wf(),
            match run_until_frame(old(self).cpu.machine(), frame_limit(old(self).cpu.cycles)) {
                Some((m, b)) => final(self).cpu.machine() == m && r == b,
                None => !r,
            },
            final(self).frame_count == if r { old(self).frame_count + 1 } else { old(self).frame_count as int },
    {
        let limit = self.cpu.cycles + CYCLES_PER_FRAME + 456;
        let done = run_until_frame_exec(&mut self.cpu, limit);
        if done {
            self.frame_count = self.frame_count + 1;
        }
        done
    }

    /// Frames completed so far.
    pub fn frame_count(&self) -> (r: u64)
        ensures
            r == self.frame_count,
    {
        self.frame_count
    }
}

} // verus!
