//! The square wave channel (CH1 and CH2): a duty-cycle waveform at a
//! programmable frequency, a volume envelope and a length counter.

use super::clock::{lemma_timer_advance_split, lemma_timer_step, timer_advance};
use vstd::prelude::*;

verus! {

/// Duty waveforms: `DUTY_TABLE[duty][step]` is 1 where the wave is high
/// (12.5%, 25%, 50%, 75%).
pub const DUTY_TABLE: [[u8; 8]; 4] = [
    [0, 0, 0, 0, 0, 0, 0, 1],
    [0, 0, 0, 0, 0, 0, 1, 1],
    [0, 0, 0, 0, 1, 1, 1, 1],
    [1, 1, 1, 1, 1, 1, 0, 0],
];

/// Whether step `step` of duty pattern `duty` is high.
pub open spec fn duty_high(duty: int, step: int) -> bool {
    if duty == 0 {
        step == 7
    } else if duty == 1 {
        step >= 6
    } else if duty == 2 {
        step >= 4
    } else {
        step < 6
    }
}

#[derive(Clone, Copy, Debug)]
pub struct SquareChannel {
    /// Output active (cleared by length expiry).
    pub enabled: bool,
    /// DAC powered (NRx2 bits 7-3 non-zero).
    pub dac_enabled: bool,
    /// Duty pattern (0-3).
    pub duty: u8,
    /// Position in the 8-step duty waveform.
    pub duty_step: u8,
    /// T-cycles until the duty position advances.
    pub freq_timer: u32,
    /// 11-bit frequency from NRx3/NRx4.
    pub frequency: u16,
    pub initial_volume: u8,
    /// Envelope direction: up when set.
    pub env_add: bool,
    /// Envelope period in frame-sequencer steps (0: envelope off).
    pub env_period: u8,
    pub volume: u8,
    pub env_timer: u8,
    /// Cleared once the volume reaches 0 or 15.
    pub env_running: bool,
    pub length_counter: u16,
    pub length_enabled: bool,
}

/// T-cycles per duty step at frequency `f`.
pub open spec fn square_period(f: u16) -> int {
    (2048 - f) * 4
}

/// The duty position after `k` steps from `d`.
pub open spec fn advance_mod(d: u8, k: int, n: int) -> u8 {
    if k == 0 {
        d
    } else {
        ((d + k) % n) as u8
    }
}

/// The channel after `cycles` T-cycles of its frequency timer.
pub open spec fn square_step_spec(ch: SquareChannel, cycles: u32) -> SquareChannel {
    let p = square_period(ch.frequency);
    if !ch.enabled || ch.freq_timer == 0 || p == 0 {
        ch
    } else {
        let (t, k) = timer_advance(ch.freq_timer as int, p, cycles as int);
        SquareChannel { freq_timer: t as u32, duty_step: advance_mod(ch.duty_step, k, 8), ..ch }
    }
}

/// Advancing a position below `n` by `k1` steps and then `k2` is advancing
/// it by `k1 + k2`.
pub proof fn lemma_advance_mod_split(d: u8, k1: int, k2: int, n: int)
    requires
        0 < n <= 256,
        d < n,
        k1 >= 0,
        k2 >= 0,
    ensures
        advance_mod(advance_mod(d, k1, n), k2, n) == advance_mod(d, k1 + k2, n),
{
    if k1 != 0 && k2 != 0 {
        let d1 = ((d + k1) % n) as u8;
        assert(d1 == (d + k1) % n);
        vstd::arithmetic::div_mod::lemma_add_mod_noop(d + k1, k2, n);
        vstd::arithmetic::div_mod::lemma_add_mod_noop_right(d1 as int, k2, n);
    }
}

/// Running an enabled channel's frequency timer for `a` T-cycles and then
/// `b` more leaves it where running it for `a + b` at once does: the same
/// timer value and duty position.
pub proof fn lemma_square_step_split(ch: SquareChannel, a: u32, b: u32)
    requires
        ch.duty_step < 8,
        ch.frequency <= 2048,
        a + b <= u32::MAX,
    ensures
        square_step_spec(ch, a).duty_step < 8,
        square_step_spec(square_step_spec(ch, a), b) == square_step_spec(ch, (a + b) as u32),
{
    let p = square_period(ch.frequency);
    if ch.enabled && ch.freq_timer != 0 && p != 0 {
        let t0 = ch.freq_timer as int;
        lemma_timer_advance_split(t0, p, a as int, b as int);
        let (t1, k1) = timer_advance(t0, p, a as int);
        let (t2, k2) = timer_advance(t1, p, b as int);
        assert(t1 <= t0 || t1 <= p) by {
            if a as int >= t0 {
                vstd::arithmetic::div_mod::lemma_mod_bound(a - t0, p);
            }
        }
        assert(k1 >= 0 && k2 >= 0) by {
            if a as int >= t0 {
                vstd::arithmetic::div_mod::lemma_div_pos_is_pos(a - t0, p);
            }
            if b as int >= t1 {
                vstd::arithmetic::div_mod::lemma_div_pos_is_pos(b - t1, p);
            }
        }
        lemma_advance_mod_split(ch.duty_step, k1, k2, 8);
        let s1 = square_step_spec(ch, a);
        assert(s1.freq_timer == t1);
    }
}

/// The step neither underflows the period nor overflows the duty position.
pub open spec fn square_step_defined(ch: SquareChannel, cycles: u32) -> bool {
    ch.enabled && ch.freq_timer != 0 ==> {
        &&& ch.frequency <= 2048
        &&& (ch.duty_step == 255 && square_period(ch.frequency) > 0) ==> cycles < ch.freq_timer
    }
}

/// The envelope clocked once (shared by the square and noise channels):
/// new volume, timer and running flag.
pub open spec fn envelope_spec(period: u8, add: bool, volume: u8, timer: u8, running: bool) -> (u8, u8, bool) {
    if period == 0 {
        (volume, timer, running)
    } else {
        let t = if timer > 0 { (timer - 1) as u8 } else { timer };
        if t != 0 {
            (volume, t, running)
        } else if !running {
            (volume, period, running)
        } else if add && volume < 15 {
            ((volume + 1) as u8, period, running)
        } else if !add && volume > 0 {
            ((volume - 1) as u8, period, running)
        } else {
            (volume, period, false)
        }
    }
}

/// The length counter clocked once: new counter and whether the channel
/// stays enabled.
pub open spec fn length_spec(length_enabled: bool, counter: u16, enabled: bool) -> (u16, bool) {
    if length_enabled && counter > 0 {
        ((counter - 1) as u16, enabled && counter != 1)
    } else {
        (counter, enabled)
    }
}

/// The channel after a trigger.
pub open spec fn square_trigger_spec(ch: SquareChannel) -> SquareChannel {
    SquareChannel {
        enabled: ch.enabled || ch.dac_enabled,
        length_counter: if ch.length_counter == 0 { 64 } else { ch.length_counter },
        freq_timer: square_period(ch.frequency) as u32,
        volume: ch.initial_volume,
        env_timer: if ch.env_period == 0 { 8 } else { ch.env_period },
        env_running: true,
        ..ch
    }
}

/// The channel after one length clock.
pub open spec fn square_clock_length(ch: SquareChannel) -> SquareChannel {
    let (counter, enabled) = length_spec(ch.length_enabled, ch.length_counter, ch.enabled);
    SquareChannel { length_counter: counter, enabled, ..ch }
}

/// The channel after one envelope clock.
pub open spec fn square_clock_envelope(ch: SquareChannel) -> SquareChannel {
    let (volume, timer, running) = envelope_spec(ch.env_period, ch.env_add, ch.volume, ch.env_timer, ch.env_running);
    SquareChannel { volume, env_timer: timer, env_running: running, ..ch }
}

/// The level `output_level` gives.
pub open spec fn square_level(ch: SquareChannel) -> Option<u8> {
    if !ch.enabled || !ch.dac_enabled {
        None
    } else if duty_high(ch.duty as int, ch.duty_step as int) {
        Some(ch.volume)
    } else {
        Some(0u8)
    }
}

impl SquareChannel {
    pub open spec fn new_spec() -> SquareChannel {
        SquareChannel {
            enabled: false,
            dac_enabled: false,
            duty: 0,
            duty_step: 0,
            freq_timer: 0,
            frequency: 0,
            initial_volume: 0,
            env_add: false,
            env_period: 0,
            volume: 0,
            env_timer: 0,
            env_running: false,
            length_counter: 0,
            length_enabled: false,
        }
    }

    /// Silent, untriggered channel.
    pub fn new() -> (r: Self)
        ensures
            r == (SquareChannel {
                enabled: false,
                dac_enabled: false,
                duty: 0,
                duty_step: 0,
                freq_timer: 0,
                frequency: 0,
                initial_volume: 0,
                env_add: false,
                env_period: 0,
                volume: 0,
                env_timer: 0,
                env_running: false,
                length_counter: 0,
                length_enabled: false,
            }),
    {
        SquareChannel {
            enabled: false,
            dac_enabled: false,
            duty: 0,
            duty_step: 0,
            freq_timer: 0,
            frequency: 0,
            initial_volume: 0,
            env_add: false,
            env_period: 0,
            volume: 0,
            env_timer: 0,
            env_running: false,
            length_counter: 0,
            length_enabled: false,
        }
    }

    /// Restart the channel (NRx4 bit 7): enabled if the DAC is on, an empty
    /// length counter refilled to 64, the timer reloaded and the envelope
    /// restarted from the initial volume.
    pub fn trigger(&mut self)
        requires
            old(self).frequency <= 2048,
        ensures
            *final(self) == square_trigger_spec(*old(self)),
    {
        if self.dac_enabled {
            self.enabled = true;
        }
        if self.length_counter == 0 {
            self.length_counter = 64;
        }
        self.freq_timer = (2048 - self.frequency as u32) * 4;
        self.volume = self.initial_volume;
        self.env_timer = if self.env_period == 0 { 8 } else { self.env_period };
        self.env_running = true;
    }

    /// Run the frequency timer for `cycles` T-cycles; each time it reaches
    /// zero it reloads with the period and the duty position advances.
    pub fn step(&mut self, cycles: u32)
        requires
            square_step_defined(*old(self), cycles),
        ensures
            *final(self) == square_step_spec(*old(self), cycles),
    {
        if !self.enabled || self.freq_timer == 0 {
            return;
        }
        let period = (2048 - self.frequency as u32) * 4;
        if period == 0 {
            return;
        }
        let ghost t0 = self.freq_timer as int;
        let ghost d0 = self.duty_step;
        let ghost start = *self;
        let mut rem = cycles;
        while rem > 0
            invariant
                period == square_period(start.frequency),
                period > 0,
                t0 == start.freq_timer,
                t0 > 0,
                d0 == start.duty_step,
                rem <= cycles,
                start.duty_step == 255 ==> cycles < t0,
                ({
                    let (t, k) = timer_advance(t0, period as int, (cycles - rem) as int);
                    &&& self.freq_timer == t
                    &&& self.duty_step == advance_mod(d0, k, 8)
                    &&& *self == (SquareChannel { freq_timer: self.freq_timer, duty_step: self.duty_step, ..start })
                }),
            decreases rem,
        {
            let consume = if rem < self.freq_timer { rem } else { self.freq_timer };
            proof {
                lemma_timer_step(t0, period as int, (cycles - rem) as int, consume as int);
            }
            self.freq_timer = self.freq_timer - consume;
            rem = rem - consume;
            if self.freq_timer == 0 {
                self.freq_timer = period;
                self.duty_step = (self.duty_step + 1) % 8;
            }
        }
    }

    /// The level fed to the DAC: none while the channel or its DAC is off,
    /// else the volume when the duty wave is high and 0 when it is low.
    pub fn output_level(&self) -> (r: Option<u8>)
        requires
            self.duty < 4,
            self.duty_step < 8,
        ensures
            r == square_level(*self),
    {
        if !self.enabled || !self.dac_enabled {
            return None;
        }
        let table = DUTY_TABLE;
        let high = table[self.duty as usize][self.duty_step as usize] != 0;
        proof {
            assert(table[0]@ == seq![0u8, 0, 0, 0, 0, 0, 0, 1]);
        }
        Some(if high { self.volume } else { 0 })
    }

    /// Clock the length counter (frame-sequencer steps 0, 2, 4, 6): it
    /// counts down while enabled and turns the channel off on reaching zero.
    pub fn clock_length(&mut self)
        ensures
            *final(self) == square_clock_length(*old(self)),
    {
        if self.length_enabled && self.length_counter > 0 {
            self.length_counter = self.length_counter - 1;
            if self.length_counter == 0 {
                self.enabled = false;
            }
        }
    }

    /// Clock the volume envelope (frame-sequencer step 7): every
    /// `env_period` clocks the volume moves one step towards 15 or 0, and
    /// the envelope stops once it cannot move.
    pub fn clock_envelope(&mut self)
        ensures
            *final(self) == square_clock_envelope(*old(self)),
    {
        if self.env_period == 0 {
            return;
        }
        if self.env_timer > 0 {
            self.env_timer = self.env_timer - 1;
        }
        if self.env_timer == 0 {
            self.env_timer = self.env_period;
            if self.env_running {
                if self.env_add && self.volume < 15 {
                    self.volume = self.volume + 1;
                } else if !self.env_add && self.volume > 0 {
                    self.volume = self.volume - 1;
                } else {
                    self.env_running = false;
                }
            }
        }
    }
}

impl Default for SquareChannel {
    fn default() -> (r: Self)
        ensures
            !r.enabled && !r.dac_enabled && r.volume == 0 && r.length_counter == 0,
    {
        Self::new()
    }
}

} // verus!
