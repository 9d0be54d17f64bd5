//! The audio unit: channels 1 and 2 (square waves, channel 1 with sweep),
//! their registers, and the frame sequencer that clocks lengths, sweep and
//! envelopes at 512 Hz (every 8192 T-cycles):
//!
//!   step 0: length        step 2: length + sweep
//!   step 4: length        step 6: length + sweep
//!   step 7: envelope
//!
//! Every step records what its samples are made of (`MixInput`); turning
//! those into floating-point stereo samples is the mixer's work.

pub mod clock;
pub mod noise;
pub mod square;
pub mod wave;

use crate::mmu::{lemma_plain_io, Mmu, MmuView};
use square::{
    square_clock_envelope, square_clock_length, square_level, square_step_spec, square_trigger_spec, SquareChannel,
};
use vstd::prelude::*;

verus! {

/// Output sample rate (Hz).
pub const SAMPLE_RATE: u32 = 44_100;

/// Frame sequencer period in T-cycles (512 Hz).
const FRAME_SEQ_PERIOD: u32 = 8_192;

pub const NR10_ADDR: u16 = 0xFF10;
pub const NR11_ADDR: u16 = 0xFF11;
pub const NR12_ADDR: u16 = 0xFF12;
pub const NR13_ADDR: u16 = 0xFF13;
pub const NR14_ADDR: u16 = 0xFF14;
pub const NR21_ADDR: u16 = 0xFF16;
pub const NR22_ADDR: u16 = 0xFF17;
pub const NR23_ADDR: u16 = 0xFF18;
pub const NR24_ADDR: u16 = 0xFF19;
pub const NR50_ADDR: u16 = 0xFF24;
pub const NR51_ADDR: u16 = 0xFF25;
pub const NR52_ADDR: u16 = 0xFF26;

/// What one step's samples are made of: the T-cycles it covered, whether
/// the unit is on, master volume (NR50), panning (NR51) and the DAC levels
/// of channels 1 and 2 at its end.
#[derive(Clone, Copy, Debug, PartialEq, Eq)]
pub struct MixInput {
    pub cycles: u32,
    pub enabled: bool,
    pub nr50: u8,
    pub nr51: u8,
    pub ch1: Option<u8>,
    pub ch2: Option<u8>,
}

pub struct Apu {
    pub ch1: SquareChannel,
    pub ch2: SquareChannel,
    ch1_sweep_shadow: u16,
    ch1_sweep_timer: u8,
    ch1_sweep_enabled: bool,
    frame_seq_counter: u32,
    frame_seq_step: u8,
    /// One entry per step, oldest first, until drained.
    pub mix_log: Vec<MixInput>,
    /// NR52 bit 7: the unit is on.
    pub apu_enabled: bool,
}

pub struct ApuView {
    pub ch1: SquareChannel,
    pub ch2: SquareChannel,
    pub sweep_shadow: u16,
    pub sweep_timer: u8,
    pub sweep_enabled: bool,
    pub seq_counter: u32,
    pub seq_step: u8,
    pub mix_log: Seq<MixInput>,
    pub apu_enabled: bool,
}

impl View for Apu {
    type V = ApuView;

    closed spec fn view(&self) -> ApuView {
        ApuView {
            ch1: self.ch1,
            ch2: self.ch2,
            sweep_shadow: self.ch1_sweep_shadow,
            sweep_timer: self.ch1_sweep_timer,
            sweep_enabled: self.ch1_sweep_enabled,
            seq_counter: self.frame_seq_counter,
            seq_step: self.frame_seq_step,
            mix_log: self.mix_log@,
            apu_enabled: self.apu_enabled,
        }
    }
}

impl ApuView {
    /// Duty patterns and positions in range, sequencer step below 8.
    pub open spec fn wf(self) -> bool {
        &&& self.ch1.duty < 4 && self.ch1.duty_step < 8
        &&& self.ch2.duty < 4 && self.ch2.duty_step < 8
        &&& self.seq_step < 8
    }
}

/// A square channel with its registers NRx1-NRx4 loaded: duty (NRx1 bits
/// 7-6), envelope (NRx2: volume bits 7-4, direction bit 3, period bits
/// 2-0, DAC on when bits 7-3 are not all zero), 11-bit frequency (NRx3 and
/// NRx4 bits 2-0) and length enable (NRx4 bit 6).
pub open spec fn load_square_regs(ch: SquareChannel, nrx1: u8, nrx2: u8, nrx3: u8, nrx4: u8) -> SquareChannel {
    SquareChannel {
        duty: nrx1 / 64,
        initial_volume: nrx2 / 16,
        env_add: (nrx2 / 8) % 2 == 1,
        env_period: nrx2 % 8,
        dac_enabled: nrx2 >= 8,
        frequency: ((nrx4 % 8) * 256 + nrx3) as u16,
        length_enabled: (nrx4 / 64) % 2 == 1,
        ..ch
    }
}

/// A trigger (NRx4 bit 7): length from NRx1 bits 5-0, then restart.
pub open spec fn triggered(ch: SquareChannel, nrx1: u8) -> SquareChannel {
    square_trigger_spec(SquareChannel { length_counter: (64 - nrx1 % 64) as u16, ..ch })
}

/// Channel 1's registers NR11-NR14 loaded; a set trigger bit is cleared
/// in memory and restarts the channel and its sweep (from NR10).
pub open spec fn sync_ch1(a: ApuView, m: MmuView) -> (ApuView, MmuView) {
    let nr11 = m.io[0x11];
    let nr14 = m.io[0x14];
    let c1 = load_square_regs(a.ch1, nr11, m.io[0x12], m.io[0x13], nr14);
    if nr14 >= 128 {
        let nr10 = m.io[0x10];
        let period = (nr10 / 16) % 8;
        (
            ApuView {
                ch1: triggered(c1, nr11),
                sweep_shadow: c1.frequency,
                sweep_timer: if period == 0 { 8 } else { period },
                sweep_enabled: period != 0 || nr10 % 8 != 0,
                ..a
            },
            MmuView { io: m.io.update(0x14, nr14 % 128), ..m },
        )
    } else {
        (ApuView { ch1: c1, ..a }, m)
    }
}

/// Channel 2's registers NR21-NR24 loaded; a set trigger bit is cleared in
/// memory and restarts the channel.
pub open spec fn sync_ch2(a: ApuView, m: MmuView) -> (ApuView, MmuView) {
    let nr21 = m.io[0x16];
    let nr24 = m.io[0x19];
    let c2 = load_square_regs(a.ch2, nr21, m.io[0x17], m.io[0x18], nr24);
    if nr24 >= 128 {
        (ApuView { ch2: triggered(c2, nr21), ..a }, MmuView { io: m.io.update(0x19, nr24 % 128), ..m })
    } else {
        (ApuView { ch2: c2, ..a }, m)
    }
}

/// The registers read into the channels: with NR52 bit 7 clear the unit is
/// off and nothing else changes.
pub open spec fn sync_spec(a: ApuView, m: MmuView) -> (ApuView, MmuView) {
    if m.io[0x26] < 128 {
        (ApuView { apu_enabled: false, ..a }, m)
    } else {
        let (a1, m1) = sync_ch1(ApuView { apu_enabled: true, ..a }, m);
        sync_ch2(a1, m1)
    }
}

/// Loading a square channel's registers, stated on their bits: duty from
/// NRx1 bits 7-6; initial volume, envelope direction and period from NRx2
/// bits 7-4, 3 and 2-0 (the DAC on when bits 7-3 are not all zero); the
/// 11-bit frequency from NRx4 bits 2-0 (high) and NRx3 (low); length enable
/// from NRx4 bit 6.
pub proof fn lemma_square_regs(ch: SquareChannel, nrx1: u8, nrx2: u8, nrx3: u8, nrx4: u8)
    ensures
        ({
            let c = load_square_regs(ch, nrx1, nrx2, nrx3, nrx4);
            &&& c.duty == nrx1 >> 6u8
            &&& c.initial_volume == nrx2 >> 4u8
            &&& c.env_add == (nrx2 & 0x08 != 0)
            &&& c.env_period == nrx2 & 0x07
            &&& c.dac_enabled == (nrx2 & 0xF8 != 0)
            &&& c.frequency == (((nrx4 & 0x07) as u16) << 8u16) | (nrx3 as u16)
            &&& c.frequency < 2048
            &&& c.length_enabled == (nrx4 & 0x40 != 0)
        }),
{
    assert(nrx1 / 64 == nrx1 >> 6u8) by (bit_vector);
    assert(nrx2 / 16 == nrx2 >> 4u8 && ((nrx2 / 8) % 2 == 1) == (nrx2 & 0x08 != 0) && nrx2 % 8 == nrx2 & 0x07 && (
    nrx2 >= 8) == (nrx2 & 0xF8 != 0)) by (bit_vector);
    assert(((nrx4 % 8) * 256 + nrx3) as u16 == (((nrx4 & 0x07) as u16) << 8u16) | (nrx3 as u16) && (nrx4 % 8)
        * 256 + nrx3 < 2048) by (bit_vector);
    assert(((nrx4 / 64) % 2 == 1) == (nrx4 & 0x40 != 0)) by (bit_vector);
}

/// After the registers are read in with the unit on (NR52 bit 7), each
/// square channel's frequency is the 11-bit value from its NRx4 bits 2-0
/// and NRx3, whether or not the write triggered it; a trigger of channel 1
/// loads that frequency into the sweep's shadow register.
pub proof fn lemma_sync_frequencies(a: ApuView, m: MmuView)
    requires
        m.wf(),
        m.io[0x26] & 0x80 != 0,
    ensures
        ({
            let (a1, m1) = sync_spec(a, m);
            &&& a1.ch1.frequency == (((m.io[0x14] & 0x07) as u16) << 8u16) | (m.io[0x13] as u16)
            &&& a1.ch2.frequency == (((m.io[0x19] & 0x07) as u16) << 8u16) | (m.io[0x18] as u16)
            &&& m.io[0x14] & 0x80 != 0 ==> a1.sweep_shadow == a1.ch1.frequency
            &&& a1.apu_enabled
        }),
{
    let nr52 = m.io[0x26];
    let nr14 = m.io[0x14];
    let nr24 = m.io[0x19];
    assert((nr52 & 0x80 != 0) == (nr52 >= 128) && (nr14 & 0x80 != 0) == (nr14 >= 128) && (nr24 & 0x80 != 0) == (
    nr24 >= 128)) by (bit_vector);
    lemma_square_regs(a.ch1, m.io[0x11], m.io[0x12], m.io[0x13], nr14);
    lemma_square_regs(a.ch2, m.io[0x16], m.io[0x17], m.io[0x18], nr24);
    let (a0, m0) = sync_ch1(ApuView { apu_enabled: true, ..a }, m);
    assert(m0.io[0x19] == nr24 && m0.io[0x18] == m.io[0x18] && m0.io[0x16] == m.io[0x16] && m0.io[0x17]
        == m.io[0x17]);
}

/// Channel 1's sweep clocked once: the timer counts down and reloads with 8
/// on reaching zero while the sweep is on.
pub open spec fn sweep_clock(a: ApuView) -> ApuView {
    let t = if a.sweep_timer > 0 { (a.sweep_timer - 1) as u8 } else { a.sweep_timer };
    ApuView { sweep_timer: if t == 0 && a.sweep_enabled { 8 } else { t }, ..a }
}

/// One frame-sequencer step.
pub open spec fn frame_seq_clock(a: ApuView) -> ApuView {
    let s = a.seq_step;
    let lengths = ApuView { ch1: square_clock_length(a.ch1), ch2: square_clock_length(a.ch2), ..a };
    let a1 = if s == 0 || s == 4 {
        lengths
    } else if s == 2 || s == 6 {
        sweep_clock(lengths)
    } else if s == 7 {
        ApuView { ch1: square_clock_envelope(a.ch1), ch2: square_clock_envelope(a.ch2), ..a }
    } else {
        a
    };
    ApuView { seq_step: ((s + 1) % 8) as u8, ..a1 }
}

/// `n` frame-sequencer steps.
pub open spec fn frame_seq_run(a: ApuView, n: nat) -> ApuView
    decreases n,
{
    if n == 0 {
        a
    } else {
        frame_seq_clock(frame_seq_run(a, (n - 1) as nat))
    }
}

/// One `Apu::step`: registers read, the frame sequencer run for every
/// 8192 T-cycles accumulated, the channel timers advanced (with the unit
/// on), and the step's mix inputs recorded.
pub open spec fn apu_step_spec(a: ApuView, m: MmuView, cycles: u32) -> (ApuView, MmuView) {
    let (a1, m1) = sync_spec(a, m);
    let total = a1.seq_counter + cycles;
    let a2 = ApuView { seq_counter: (total % 8192) as u32, ..frame_seq_run(a1, (total / 8192) as nat) };
    let a3 = if a2.apu_enabled {
        ApuView { ch1: square_step_spec(a2.ch1, cycles), ch2: square_step_spec(a2.ch2, cycles), ..a2 }
    } else {
        a2
    };
    let input = MixInput {
        cycles,
        enabled: a3.apu_enabled,
        nr50: m1.io[0x24],
        nr51: m1.io[0x25],
        ch1: square_level(a3.ch1),
        ch2: square_level(a3.ch2),
    };
    (ApuView { mix_log: a3.mix_log.push(input), ..a3 }, m1)
}

/// Frame-sequencer steps keep the invariant and change neither the
/// frequencies nor the duty state.
proof fn lemma_frame_seq_run(a: ApuView, n: nat)
    requires
        a.wf(),
    ensures
        frame_seq_run(a, n).wf(),
        frame_seq_run(a, n).ch1.frequency == a.ch1.frequency,
        frame_seq_run(a, n).ch2.frequency == a.ch2.frequency,
        frame_seq_run(a, n).ch1.freq_timer == a.ch1.freq_timer,
        frame_seq_run(a, n).ch2.freq_timer == a.ch2.freq_timer,
        frame_seq_run(a, n).apu_enabled == a.apu_enabled,
        frame_seq_run(a, n).mix_log == a.mix_log,
    decreases n,
{
    if n > 0 {
        lemma_frame_seq_run(a, (n - 1) as nat);
    }
}

/// The audio unit at power-on: both channels silent, the unit off,
/// nothing recorded.
pub open spec fn power_on_apu() -> ApuView {
    ApuView {
        ch1: SquareChannel::new_spec(),
        ch2: SquareChannel::new_spec(),
        sweep_shadow: 0,
        sweep_timer: 0,
        sweep_enabled: false,
        seq_counter: 0,
        seq_step: 0,
        mix_log: Seq::empty(),
        apu_enabled: false,
    }
}

impl Apu {
    pub open spec fn wf(&self) -> bool {
        self@.wf()
    }

    /// Both channels silent, the unit off, nothing recorded.
    pub fn new() -> (r: Self)
        ensures
            r.wf(),
            r@ == power_on_apu(),
            r@.ch1 == SquareChannel::new_spec(),
            r@.ch2 == SquareChannel::new_spec(),
            r@.sweep_shadow == 0 && r@.sweep_timer == 0 && !r@.sweep_enabled,
            r@.seq_counter == 0 && r@.seq_step == 0,
            r@.mix_log == Seq::<MixInput>::empty(),
            !r@.apu_enabled,
    {
        Apu {
            ch1: SquareChannel::new(),
            ch2: SquareChannel::new(),
            ch1_sweep_shadow: 0,
            ch1_sweep_timer: 0,
            ch1_sweep_enabled: false,
            frame_seq_counter: 0,
            frame_seq_step: 0,
            mix_log: Vec::new(),
            apu_enabled: false,
        }
    }

    /// Take the recorded mix inputs, leaving none.
    pub fn drain_mix_log(&mut self) -> (r: Vec<MixInput>)
        ensures
            r@ == old(self)@.mix_log,
            final(self)@ == (ApuView { mix_log: Seq::empty(), ..old(self)@ }),
    {
        let mut out: Vec<MixInput> = Vec::new();
        std::mem::swap(&mut out, &mut self.mix_log);
        out
    }

    /// Whether the duty settings and the sequencer step are in range (the
    /// invariant `wf`).
    pub fn is_consistent(&self) -> (r: bool)
        ensures
            r == self.wf(),
    {
        self.ch1.duty < 4 && self.ch1.duty_step < 8 && self.ch2.duty < 4 && self.ch2.duty_step < 8
            && self.frame_seq_step < 8
    }

    /// The channel-1 sweep state (shadow frequency, timer, enabled) and the
    /// frame sequencer's counter and step.
    pub fn sequencer_state(&self) -> (r: (u16, u8, bool, u32, u8))
        ensures
            r == (self@.sweep_shadow, self@.sweep_timer, self@.sweep_enabled, self@.seq_counter, self@.seq_step),
    {
        (
            self.ch1_sweep_shadow,
            self.ch1_sweep_timer,
            self.ch1_sweep_enabled,
            self.frame_seq_counter,
            self.frame_seq_step,
        )
    }

    /// A unit holding exactly the given channels, sweep and sequencer state
    /// (as `sequencer_state` gives it) and power flag, with an empty record
    /// of mixer inputs.
    pub fn from_parts(ch1: SquareChannel, ch2: SquareChannel, seq: (u16, u8, bool, u32, u8), apu_enabled: bool) -> (r: Apu)
        ensures
            r@ == (ApuView {
                ch1,
                ch2,
                sweep_shadow: seq.0,
                sweep_timer: seq.1,
                sweep_enabled: seq.2,
                seq_counter: seq.3,
                seq_step: seq.4,
                mix_log: Seq::<MixInput>::empty(),
                apu_enabled,
            }),
    {
        Apu {
            ch1,
            ch2,
            ch1_sweep_shadow: seq.0,
            ch1_sweep_timer: seq.1,
            ch1_sweep_enabled: seq.2,
            frame_seq_counter: seq.3,
            frame_seq_step: seq.4,
            mix_log: Vec::new(),
            apu_enabled,
        }
    }

    /// A copy of the unit, its record of mixer inputs included.
    pub fn snapshot(&self) -> (r: Apu)
        ensures
            r@ == self@,
    {
        Apu {
            ch1: self.ch1,
            ch2: self.ch2,
            ch1_sweep_shadow: self.ch1_sweep_shadow,
            ch1_sweep_timer: self.ch1_sweep_timer,
            ch1_sweep_enabled: self.ch1_sweep_enabled,
            frame_seq_counter: self.frame_seq_counter,
            frame_seq_step: self.frame_seq_step,
            mix_log: vstd::slice::slice_to_vec(self.mix_log.as_slice()),
            apu_enabled: self.apu_enabled,
        }
    }

    /// Whether `step(cycles, ..)` keeps the frame-sequencer counter in range.
    pub fn step_is_defined(&self, cycles: u32) -> (r: bool)
        ensures
            r == (self@.seq_counter + cycles <= u32::MAX),
    {
        self.frame_seq_counter as u64 + cycles as u64 <= u32::MAX as u64
    }

    /// Advance the unit by `cycles` T-cycles.
    pub fn step(&mut self, cycles: u32, mmu: &mut Mmu)
        requires
            old(self).wf(),
            old(mmu).wf(),
            old(self)@.seq_counter + cycles <= u32::MAX,
        ensures
            final(self).wf(),
            final(mmu).wf(),
            (final(self)@, final(mmu)@) == apu_step_spec(old(self)@, old(mmu)@, cycles),
    {
        self.sync_registers(mmu);
        let ghost a1 = self@;
        self.frame_seq_counter = self.frame_seq_counter + cycles;
        let ghost total = self.frame_seq_counter as int;
        let ghost mut n: nat = 0;
        proof {
            lemma_frame_seq_run(a1, 0);
        }
        while self.frame_seq_counter >= FRAME_SEQ_PERIOD
            invariant
                a1.wf(),
                self.wf(),
                self.frame_seq_counter as int == total - n * 8192,
                self@ == (ApuView { seq_counter: self.frame_seq_counter, ..frame_seq_run(a1, n) }),
            decreases self.frame_seq_counter,
        {
            self.frame_seq_counter = self.frame_seq_counter - FRAME_SEQ_PERIOD;
            self.clock_frame_sequencer();
            proof {
                assert(total - (n + 1) * 8192 == total - n * 8192 - 8192) by (nonlinear_arith);
                n = n + 1;
                lemma_frame_seq_run(a1, n);
            }
        }
        proof {
            let c = self.frame_seq_counter as int;
            assert(n == total / 8192 && c == total % 8192) by (nonlinear_arith)
                requires
                    c == total - n * 8192,
                    0 <= c < 8192,
            ;
            lemma_frame_seq_run(a1, n);
        }
        if self.apu_enabled {
            self.ch1.step(cycles);
            self.ch2.step(cycles);
        }
        proof {
            lemma_plain_io(mmu@, NR50_ADDR);
            lemma_plain_io(mmu@, NR51_ADDR);
        }
        let input = MixInput {
            cycles,
            enabled: self.apu_enabled,
            nr50: mmu.read_byte(NR50_ADDR),
            nr51: mmu.read_byte(NR51_ADDR),
            ch1: self.ch1.output_level(),
            ch2: self.ch2.output_level(),
        };
        self.mix_log.push(input);
    }

    /// Read the channel registers (with the unit on); trigger bits restart
    /// their channel and are cleared.
    fn sync_registers(&mut self, mmu: &mut Mmu)
        requires
            old(self).wf(),
            old(mmu).wf(),
        ensures
            final(self).wf(),
            final(mmu).wf(),
            (final(self)@, final(mmu)@) == sync_spec(old(self)@, old(mmu)@),
    {
        proof {
            lemma_plain_io(mmu@, NR52_ADDR);
        }
        let nr52 = mmu.read_byte(NR52_ADDR);
        self.apu_enabled = nr52 >= 0x80;
        if !self.apu_enabled {
            return;
        }
        self.sync_ch1(mmu);
        self.sync_ch2(mmu);
    }

    fn sync_ch1(&mut self, mmu: &mut Mmu)
        requires
            old(self).wf(),
            old(mmu).wf(),
        ensures
            final(self).wf(),
            final(mmu).wf(),
            (final(self)@, final(mmu)@) == sync_ch1(old(self)@, old(mmu)@),
    {
        proof {
            lemma_plain_io(mmu@, NR10_ADDR);
            lemma_plain_io(mmu@, NR11_ADDR);
            lemma_plain_io(mmu@, NR12_ADDR);
            lemma_plain_io(mmu@, NR13_ADDR);
            lemma_plain_io(mmu@, NR14_ADDR);
        }
        let nr11 = mmu.read_byte(NR11_ADDR);
        let nr12 = mmu.read_byte(NR12_ADDR);
        let nr13 = mmu.read_byte(NR13_ADDR);
        let nr14 = mmu.read_byte(NR14_ADDR);
        load_regs(&mut self.ch1, nr11, nr12, nr13, nr14);
        if nr14 >= 0x80 {
            let nr10 = mmu.read_byte(NR10_ADDR);
            mmu.write_byte(NR14_ADDR, nr14 % 0x80);
            self.ch1.length_counter = 64 - (nr11 % 64) as u16;
            self.ch1_sweep_shadow = self.ch1.frequency;
            let sweep_period = (nr10 / 16) % 8;
            let sweep_shift = nr10 % 8;
            self.ch1_sweep_timer = if sweep_period == 0 { 8 } else { sweep_period };
            self.ch1_sweep_enabled = sweep_period != 0 || sweep_shift != 0;
            self.ch1.trigger();
        }
    }

    fn sync_ch2(&mut self, mmu: &mut Mmu)
        requires
            old(self).wf(),
            old(mmu).wf(),
        ensures
            final(self).wf(),
            final(mmu).wf(),
            (final(self)@, final(mmu)@) == sync_ch2(old(self)@, old(mmu)@),
    {
        proof {
            lemma_plain_io(mmu@, NR21_ADDR);
            lemma_plain_io(mmu@, NR22_ADDR);
            lemma_plain_io(mmu@, NR23_ADDR);
            lemma_plain_io(mmu@, NR24_ADDR);
        }
        let nr21 = mmu.read_byte(NR21_ADDR);
        let nr22 = mmu.read_byte(NR22_ADDR);
        let nr23 = mmu.read_byte(NR23_ADDR);
        let nr24 = mmu.read_byte(NR24_ADDR);
        load_regs(&mut self.ch2, nr21, nr22, nr23, nr24);
        if nr24 >= 0x80 {
            mmu.write_byte(NR24_ADDR, nr24 % 0x80);
            self.ch2.length_counter = 64 - (nr21 % 64) as u16;
            self.ch2.trigger();
        }
    }

    /// One frame-sequencer step.
    fn clock_frame_sequencer(&mut self)
        requires
            old(self).wf(),
        ensures
            final(self).wf(),
            final(self)@ == frame_seq_clock(old(self)@),
    {
        let s = self.frame_seq_step;
        if s == 0 || s == 4 {
            self.ch1.clock_length();
            self.ch2.clock_length();
        } else if s == 2 || s == 6 {
            self.ch1.clock_length();
            self.ch2.clock_length();
            self.clock_sweep();
        } else if s == 7 {
            self.ch1.clock_envelope();
            self.ch2.clock_envelope();
        }
        self.frame_seq_step = (self.frame_seq_step + 1) % 8;
    }

    /// Channel 1's sweep timer (steps 2 and 6, 128 Hz).
    fn clock_sweep(&mut self)
        requires
            old(self).wf(),
        ensures
            final(self).wf(),
            final(self)@ == sweep_clock(old(self)@),
    {
        if self.ch1_sweep_timer > 0 {
            self.ch1_sweep_timer = self.ch1_sweep_timer - 1;
        }
        if self.ch1_sweep_timer == 0 && self.ch1_sweep_enabled {
            self.ch1_sweep_timer = 8;
        }
    }
}

/// Load a square channel's registers.
fn load_regs(ch: &mut SquareChannel, nrx1: u8, nrx2: u8, nrx3: u8, nrx4: u8)
    ensures
        *final(ch) == load_square_regs(*old(ch), nrx1, nrx2, nrx3, nrx4),
        final(ch).frequency <= 2047,
        final(ch).duty < 4,
{
    ch.duty = nrx1 / 64;
    ch.initial_volume = nrx2 / 16;
    ch.env_add = (nrx2 / 8) % 2 == 1;
    ch.env_period = nrx2 % 8;
    ch.dac_enabled = nrx2 >= 8;
    ch.frequency = (nrx4 % 8) as u16 * 256 + nrx3 as u16;
    ch.length_enabled = (nrx4 / 64) % 2 == 1;
}

impl Default for Apu {
    fn default() -> (r: Self)
        ensures
            r.wf(),
            !r@.apu_enabled,
    {
        Self::new()
    }
}

} // verus!
