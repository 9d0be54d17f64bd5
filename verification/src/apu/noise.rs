//! CH4, the noise channel: a linear feedback shift register clocked every
//! `divisor << shift` T-cycles (divisor 8 for code 0, else 16 * code). Each
//! clock XORs bits 0 and 1, shifts right and feeds the result into bit 14
//! (bit 6 in the 7-bit short mode). The output is bit 0 inverted.

use super::clock::{lemma_timer_step, timer_advance};
use super::square::{envelope_spec, length_spec};
use vstd::prelude::*;

verus! {

#[derive(Clone, Debug)]
pub struct NoiseChannel {
    pub enabled: bool,
    pub dac_enabled: bool,
    /// The 15-bit shift register.
    pub lfsr: u16,
    /// 7-bit mode (NR43 bit 3).
    pub short_mode: bool,
    /// T-cycles until the next shift.
    pub freq_timer: u32,
    /// NR43 bits 7-4.
    pub shift_clock: u8,
    /// NR43 bits 2-0.
    pub divisor_code: u8,
    pub initial_volume: u8,
    pub env_add: bool,
    pub env_period: u8,
    pub volume: u8,
    pub env_timer: u8,
    pub env_running: bool,
    pub length_counter: u16,
    pub length_enabled: bool,
}

/// The divisor for a divisor code: 8 for 0, else 16 times the code.
pub open spec fn divisor_spec(code: u8) -> u32 {
    if code % 8 == 0 {
        8
    } else {
        ((code % 8) * 16) as u32
    }
}

/// T-cycles between shifts.
pub open spec fn noise_period(code: u8, shift: u8) -> u32 {
    divisor_spec(code) << shift
}

/// One shift of the register.
pub open spec fn lfsr_next(l: u16, short: bool) -> u16 {
    let feedback = (l ^ (l >> 1u16)) & 0x01;
    if short {
        ((l >> 1u16) & 0x003F) | (feedback << 6u16)
    } else {
        (l >> 1u16) | (feedback << 14u16)
    }
}

/// `k` shifts of the register.
pub open spec fn lfsr_run(l: u16, short: bool, k: nat) -> u16
    decreases k,
{
    if k == 0 {
        l
    } else {
        lfsr_next(lfsr_run(l, short, (k - 1) as nat), short)
    }
}

/// The channel after `cycles` T-cycles of its timer (a timer at zero counts
/// as one cycle from reloading).
pub open spec fn noise_step_spec(ch: NoiseChannel, cycles: u32) -> NoiseChannel {
    let p = noise_period(ch.divisor_code, ch.shift_clock);
    if !ch.enabled || !ch.dac_enabled || p == 0 || cycles == 0 {
        ch
    } else {
        let t0 = if ch.freq_timer == 0 { 1 } else { ch.freq_timer as int };
        let (t, k) = timer_advance(t0, p as int, cycles as int);
        NoiseChannel { freq_timer: t as u32, lfsr: lfsr_run(ch.lfsr, ch.short_mode, k as nat), ..ch }
    }
}

impl NoiseChannel {
    /// Silent, untriggered channel with the register all ones.
    pub fn new() -> (r: Self)
        ensures
            !r.enabled && !r.dac_enabled && r.lfsr == 0x7FFF && !r.short_mode && r.freq_timer == 0,
            r.shift_clock == 0 && r.divisor_code == 0 && r.initial_volume == 0 && !r.env_add,
            r.env_period == 0 && r.volume == 0 && r.env_timer == 0 && !r.env_running,
            r.length_counter == 0 && !r.length_enabled,
    {
        NoiseChannel {
            enabled: false,
            dac_enabled: false,
            lfsr: 0x7FFF,
            short_mode: false,
            freq_timer: 0,
            shift_clock: 0,
            divisor_code: 0,
            initial_volume: 0,
            env_add: false,
            env_period: 0,
            volume: 0,
            env_timer: 0,
            env_running: false,
            length_counter: 0,
            length_enabled: false,
        }
    }

    /// The divisor of the divisor code (bits 2-0).
    pub fn divisor(&self) -> (r: u32)
        ensures
            r == divisor_spec(self.divisor_code),
    {
        let code = self.divisor_code % 8;
        if code == 0 {
            8
        } else {
            code as u32 * 16
        }
    }

    /// T-cycles between shifts.
    pub fn period(&self) -> (r: u32)
        requires
            self.shift_clock < 32,
        ensures
            r == noise_period(self.divisor_code, self.shift_clock),
    {
        self.divisor() << self.shift_clock
    }

    /// Restart (NR44 bit 7): enabled if the DAC is on, an empty length
    /// counter refilled to 64, the register reset to all ones, the timer
    /// reloaded and the envelope restarted.
    pub fn trigger(&mut self)
        requires
            old(self).shift_clock < 32,
        ensures
            *final(self) == (NoiseChannel {
                enabled: old(self).enabled || old(self).dac_enabled,
                length_counter: if old(self).length_counter == 0 { 64 } else { old(self).length_counter },
                lfsr: 0x7FFF,
                freq_timer: noise_period(old(self).divisor_code, old(self).shift_clock),
                volume: old(self).initial_volume,
                env_timer: if old(self).env_period == 0 { 8 } else { old(self).env_period },
                env_running: true,
                ..*old(self)
            }),
    {
        if self.dac_enabled {
            self.enabled = true;
        }
        if self.length_counter == 0 {
            self.length_counter = 64;
        }
        self.lfsr = 0x7FFF;
        self.freq_timer = self.period();
        self.volume = self.initial_volume;
        self.env_timer = if self.env_period == 0 { 8 } else { self.env_period };
        self.env_running = true;
    }

    /// Run the timer for `cycles` T-cycles, shifting the register each time
    /// it reaches zero.
    pub fn step(&mut self, cycles: u32)
        requires
            old(self).enabled && old(self).dac_enabled ==> old(self).shift_clock < 32,
        ensures
            *final(self) == noise_step_spec(*old(self), cycles),
    {
        if !self.enabled || !self.dac_enabled {
            return;
        }
        let period = self.period();
        if period == 0 {
            return;
        }
        let ghost start = *self;
        let ghost t0: int = if start.freq_timer == 0 { 1 } else { start.freq_timer as int };
        let mut rem = cycles;
        while rem > 0
            invariant
                period == noise_period(start.divisor_code, start.shift_clock),
                period > 0,
                t0 == (if start.freq_timer == 0 { 1 } else { start.freq_timer as int }),
                rem <= cycles,
                ({
                    let (t, k) = timer_advance(t0, period as int, (cycles - rem) as int);
                    &&& if rem == cycles && start.freq_timer == 0 {
                        self.freq_timer == 0
                    } else {
                        self.freq_timer == t
                    }
                    &&& k >= 0
                    &&& self.lfsr == lfsr_run(start.lfsr, start.short_mode, k as nat)
                    &&& *self == (NoiseChannel { freq_timer: self.freq_timer, lfsr: self.lfsr, ..start })
                }),
            decreases rem,
        {
            let timer = if self.freq_timer > 1 { self.freq_timer } else { 1 };
            let consume = if rem < timer { rem } else { timer };
            proof {
                lemma_timer_step(t0, period as int, (cycles - rem) as int, consume as int);
            }
            self.freq_timer = self.freq_timer.saturating_sub(consume);
            rem = rem - consume;
            if self.freq_timer == 0 {
                self.freq_timer = period;
                self.clock_lfsr();
            }
        }
    }

    fn clock_lfsr(&mut self)
        ensures
            *final(self) == (NoiseChannel { lfsr: lfsr_next(old(self).lfsr, old(self).short_mode), ..*old(self) }),
    {
        let feedback = (self.lfsr ^ (self.lfsr >> 1)) & 0x01;
        if self.short_mode {
            self.lfsr = ((self.lfsr >> 1) & 0x003F) | (feedback << 6);
        } else {
            self.lfsr = (self.lfsr >> 1) | (feedback << 14);
        }
    }

    /// The level fed to the DAC: none while the channel or its DAC is off,
    /// else the volume when bit 0 of the register is clear and 0 when set.
    pub fn output_level(&self) -> (r: Option<u8>)
        ensures
            r == (if !self.enabled || !self.dac_enabled {
                None
            } else if self.lfsr % 2 == 0 {
                Some(self.volume)
            } else {
                Some(0u8)
            }),
    {
        if !self.enabled || !self.dac_enabled {
            return None;
        }
        Some(if self.lfsr % 2 == 0 { self.volume } else { 0 })
    }

    /// Clock the length counter: it counts down while enabled and turns the
    /// channel off on reaching zero.
    pub fn clock_length(&mut self)
        ensures
            (final(self).length_counter, final(self).enabled) == length_spec(
                old(self).length_enabled,
                old(self).length_counter,
                old(self).enabled,
            ),
            *final(self) == (NoiseChannel {
                length_counter: final(self).length_counter,
                enabled: final(self).enabled,
                ..*old(self)
            }),
    {
        if self.length_enabled && self.length_counter > 0 {
            self.length_counter = self.length_counter - 1;
            if self.length_counter == 0 {
                self.enabled = false;
            }
        }
    }

    /// Clock the volume envelope, as for the square channels.
    pub fn clock_envelope(&mut self)
        ensures
            (final(self).volume, final(self).env_timer, final(self).env_running) == envelope_spec(
                old(self).env_period,
                old(self).env_add,
                old(self).volume,
                old(self).env_timer,
                old(self).env_running,
            ),
            *final(self) == (NoiseChannel {
                volume: final(self).volume,
                env_timer: final(self).env_timer,
                env_running: final(self).env_running,
                ..*old(self)
            }),
    {
        if self.env_period == 0 {
            return;
        }
        if self.env_timer > 0 {
            self.env_timer = self.env_timer - 1;
        }
        if self.env_timer == 0 {
            self.env_timer = self.env_period;
            if self.env_running {
                if self.env_add && self.volume < 15 {
                    self.volume = self.volume + 1;
                } else if !self.env_add && self.volume > 0 {
                    self.volume = self.volume - 1;
                } else {
                    self.env_running = false;
                }
            }
        }
    }
}

impl Default for NoiseChannel {
    fn default() -> (r: Self)
        ensures
            !r.enabled && !r.dac_enabled && r.lfsr == 0x7FFF,
    {
        Self::new()
    }
}

} // verus!
