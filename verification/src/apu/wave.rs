//! CH3, the wave channel: 32 4-bit samples from wave RAM (0xFF30-0xFF3F),
//! one step every (2048 - frequency) * 2 T-cycles, scaled by a volume code.

use super::clock::{lemma_timer_step, timer_advance};
use super::square::advance_mod;
use vstd::prelude::*;

verus! {

#[derive(Clone, Debug)]
pub struct WaveChannel {
    pub enabled: bool,
    pub dac_enabled: bool,
    /// Position in the 32-nibble wave table.
    pub position: u8,
    pub freq_timer: u32,
    pub frequency: u16,
    /// NR32 bits 6-5: 0 mute, 1 full, 2 half, 3 quarter.
    pub volume_code: u8,
    pub length_counter: u16,
    pub length_enabled: bool,
    /// Copy of wave RAM; the high nibble of each byte plays first.
    pub wave_ram: [u8; 16],
}

/// T-cycles per wave step at frequency `f` (0 past 2048).
pub open spec fn wave_period(f: u16) -> int {
    if f <= 2048 {
        (2048 - f) * 2
    } else {
        0
    }
}

/// The channel after `cycles` T-cycles of its frequency timer (a timer at
/// zero counts as one cycle from reloading).
pub open spec fn wave_step_spec(ch: WaveChannel, cycles: u32) -> WaveChannel {
    let p = wave_period(ch.frequency);
    if !ch.enabled || !ch.dac_enabled || p == 0 || cycles == 0 {
        ch
    } else {
        let t0 = if ch.freq_timer == 0 { 1 } else { ch.freq_timer as int };
        let (t, k) = timer_advance(t0, p, cycles as int);
        WaveChannel { freq_timer: t as u32, position: advance_mod(ch.position, k, 32), ..ch }
    }
}

/// The step does not overflow the position.
pub open spec fn wave_step_defined(ch: WaveChannel, cycles: u32) -> bool {
    (ch.enabled && ch.dac_enabled && wave_period(ch.frequency) > 0 && ch.position == 255) ==> cycles < (
    if ch.freq_timer == 0 { 1 } else { ch.freq_timer as int })
}

/// The 4-bit sample at `position`.
pub open spec fn wave_nibble(ram: Seq<u8>, position: int) -> u8 {
    if position % 2 == 0 {
        ram[position / 2] / 16
    } else {
        ram[position / 2] % 16
    }
}

impl WaveChannel {
    /// Silent, untriggered channel with zeroed wave RAM.
    pub fn new() -> (r: Self)
        ensures
            !r.enabled && !r.dac_enabled && r.position == 0 && r.freq_timer == 0 && r.frequency == 0,
            r.volume_code == 0 && r.length_counter == 0 && !r.length_enabled,
            r.wave_ram@ == Seq::new(16, |i: int| 0u8),
    {
        let r = WaveChannel {
            enabled: false,
            dac_enabled: false,
            position: 0,
            freq_timer: 0,
            frequency: 0,
            volume_code: 0,
            length_counter: 0,
            length_enabled: false,
            wave_ram: [0u8; 16],
        };
        assert(r.wave_ram@ =~= Seq::new(16, |i: int| 0u8));
        r
    }

    /// Restart (NR34 bit 7): enabled if the DAC is on, an empty length
    /// counter refilled to 256, playback from position 0.
    pub fn trigger(&mut self)
        ensures
            *final(self) == (WaveChannel {
                enabled: old(self).enabled || old(self).dac_enabled,
                length_counter: if old(self).length_counter == 0 { 256 } else { old(self).length_counter },
                position: 0,
                freq_timer: wave_period(old(self).frequency) as u32,
                ..*old(self)
            }),
    {
        if self.dac_enabled {
            self.enabled = true;
        }
        if self.length_counter == 0 {
            self.length_counter = 256;
        }
        self.position = 0;
        self.freq_timer = 2048u32.saturating_sub(self.frequency as u32) * 2;
    }

    /// Run the frequency timer for `cycles` T-cycles, advancing the position
    /// (mod 32) each time it reaches zero.
    pub fn step(&mut self, cycles: u32)
        requires
            wave_step_defined(*old(self), cycles),
        ensures
            *final(self) == wave_step_spec(*old(self), cycles),
    {
        if !self.enabled || !self.dac_enabled {
            return;
        }
        let period = 2048u32.saturating_sub(self.frequency as u32) * 2;
        if period == 0 {
            return;
        }
        let ghost start = *self;
        let ghost t0: int = if start.freq_timer == 0 { 1 } else { start.freq_timer as int };
        let mut rem = cycles;
        while rem > 0
            invariant
                period == wave_period(start.frequency),
                period > 0,
                t0 == (if start.freq_timer == 0 { 1 } else { start.freq_timer as int }),
                rem <= cycles,
                start.position == 255 ==> cycles < t0,
                ({
                    let (t, k) = timer_advance(t0, period as int, (cycles - rem) as int);
                    &&& if rem == cycles && start.freq_timer == 0 {
                        self.freq_timer == 0
                    } else {
                        self.freq_timer == t
                    }
                    &&& self.position == advance_mod(start.position, k, 32)
                    &&& *self == (WaveChannel { freq_timer: self.freq_timer, position: self.position, ..start })
                }),
            decreases rem,
        {
            let timer = if self.freq_timer > 1 { self.freq_timer } else { 1 };
            let consume = if rem < timer { rem } else { timer };
            proof {
                lemma_timer_step(t0, period as int, (cycles - rem) as int, consume as int);
            }
            self.freq_timer = self.freq_timer.saturating_sub(consume);
            rem = rem - consume;
            if self.freq_timer == 0 {
                self.freq_timer = period;
                self.position = (self.position + 1) % 32;
            }
        }
    }

    /// The level fed to the DAC: none while the channel or its DAC is off,
    /// else the current nibble shifted right by the volume code (muted for
    /// code 0).
    pub fn output_level(&self) -> (r: Option<u8>)
        requires
            self.position < 32,
        ensures
            r == (if !self.enabled || !self.dac_enabled {
                None
            } else {
                let n = wave_nibble(self.wave_ram@, self.position as int);
                Some(
                    if self.volume_code == 1 {
                        n
                    } else if self.volume_code == 2 {
                        n / 2
                    } else if self.volume_code == 3 {
                        n / 4
                    } else {
                        0u8
                    },
                )
            }),
    {
        if !self.enabled || !self.dac_enabled {
            return None;
        }
        let byte = self.wave_ram[(self.position / 2) as usize];
        let nibble: u8 = if self.position % 2 == 0 { byte / 16 } else { byte % 16 };
        let shifted = if self.volume_code == 1 {
            nibble
        } else if self.volume_code == 2 {
            nibble / 2
        } else if self.volume_code == 3 {
            nibble / 4
        } else {
            0
        };
        Some(shifted)
    }

    /// Clock the length counter: it counts down while enabled and turns the
    /// channel off on reaching zero.
    pub fn clock_length(&mut self)
        ensures
            (final(self).length_counter, final(self).enabled) == super::square::length_spec(
                old(self).length_enabled,
                old(self).length_counter,
                old(self).enabled,
            ),
            *final(self) == (WaveChannel {
                length_counter: final(self).length_counter,
                enabled: final(self).enabled,
                ..*old(self)
            }),
    {
        if self.length_enabled && self.length_counter > 0 {
            self.length_counter = self.length_counter - 1;
            if self.length_counter == 0 {
                self.enabled = false;
            }
        }
    }
}

impl Default for WaveChannel {
    fn default() -> (r: Self)
        ensures
            !r.enabled && !r.dac_enabled && r.position == 0,
    {
        Self::new()
    }
}

} // verus!
