use gb_core::apu::square::{SquareChannel, DUTY_TABLE};

fn triggered_ch(freq: u16, duty: u8, volume: u8) -> SquareChannel {
    let mut ch = SquareChannel::new();
    ch.frequency      = freq;
    ch.duty           = duty;
    ch.initial_volume = volume;
    ch.dac_enabled    = true;
    ch.freq_timer     = (2048 - freq as u32) * 4;
    ch.trigger();
    ch
}

// ── trigger ───────────────────────────────────────────────────────────────

#[test]
fn test_trigger_enables_channel_when_dac_on() {
    let mut ch = SquareChannel::new();
    ch.dac_enabled = true;
    ch.trigger();
    assert!(ch.enabled);
}

#[test]
fn square_test_trigger_does_not_enable_when_dac_off() {
    let mut ch = SquareChannel::new();
    ch.dac_enabled = false;
    ch.trigger();
    assert!(!ch.enabled);
}

#[test]
fn square_test_trigger_restores_volume() {
    let mut ch = triggered_ch(1000, 2, 12);
    ch.volume = 3; // simulate decay
    ch.trigger();
    assert_eq!(ch.volume, 12);
}

#[test]
fn square_test_trigger_sets_length_to_64_when_zero() {
    let mut ch = SquareChannel::new();
    ch.dac_enabled    = true;
    ch.length_counter = 0;
    ch.trigger();
    assert_eq!(ch.length_counter, 64);
}

#[test]
fn square_test_trigger_preserves_nonzero_length() {
    let mut ch = SquareChannel::new();
    ch.dac_enabled    = true;
    ch.length_counter = 20;
    ch.trigger();
    assert_eq!(ch.length_counter, 20);
}

#[test]
fn test_trigger_loads_freq_timer() {
    let mut ch = SquareChannel::new();
    ch.dac_enabled = true;
    ch.frequency   = 1024;
    ch.trigger();
    assert_eq!(ch.freq_timer, (2048 - 1024) * 4);
}

// ── sample ────────────────────────────────────────────────────────────────






// ── duty table ────────────────────────────────────────────────────────────

#[test]
fn test_duty_0_has_one_high_step() {
    let highs: usize = DUTY_TABLE[0].iter().filter(|&&v| v != 0).count();
    assert_eq!(highs, 1);
}

#[test]
fn test_duty_1_has_two_high_steps() {
    let highs: usize = DUTY_TABLE[1].iter().filter(|&&v| v != 0).count();
    assert_eq!(highs, 2);
}

#[test]
fn test_duty_2_has_four_high_steps() {
    let highs: usize = DUTY_TABLE[2].iter().filter(|&&v| v != 0).count();
    assert_eq!(highs, 4);
}

#[test]
fn test_duty_3_has_six_high_steps() {
    let highs: usize = DUTY_TABLE[3].iter().filter(|&&v| v != 0).count();
    assert_eq!(highs, 6);
}

// ── step / frequency timer ────────────────────────────────────────────────

#[test]
fn square_test_step_does_nothing_when_disabled() {
    let mut ch = SquareChannel::new();
    ch.duty_step = 3;
    ch.step(100_000);
    assert_eq!(ch.duty_step, 3);
}

#[test]
fn test_step_advances_duty_after_one_period() {
    // freq = 1792 → period = (2048-1792)*4 = 1024 T-cycles per step
    let mut ch = triggered_ch(1792, 2, 15);
    let initial_step = ch.duty_step;
    ch.step(1024);
    assert_eq!(ch.duty_step, (initial_step + 1) % 8);
}

#[test]
fn test_step_advances_multiple_steps() {
    let mut ch = triggered_ch(1792, 2, 15);
    ch.step(1024 * 4); // four full periods
    assert_eq!(ch.duty_step, 4 % 8);
}

#[test]
fn test_step_wraps_duty_step_at_8() {
    let mut ch = triggered_ch(1792, 2, 15);
    ch.step(1024 * 8); // exactly one full wave cycle
    assert_eq!(ch.duty_step, 0);
}

// ── length counter ────────────────────────────────────────────────────────

#[test]
fn test_clock_length_decrements_counter() {
    let mut ch = triggered_ch(1000, 2, 15);
    ch.length_enabled = true;
    ch.length_counter = 10;
    ch.clock_length();
    assert_eq!(ch.length_counter, 9);
}

#[test]
fn square_test_clock_length_disables_channel_at_zero() {
    let mut ch = triggered_ch(1000, 2, 15);
    ch.length_enabled = true;
    ch.length_counter = 1;
    ch.clock_length();
    assert!(!ch.enabled);
}

#[test]
fn square_test_clock_length_no_effect_when_disabled() {
    let mut ch = triggered_ch(1000, 2, 15);
    ch.length_enabled = false;
    ch.length_counter = 1;
    ch.clock_length();
    assert!(ch.enabled, "Length counter must not fire when length_enabled=false");
}

// ── volume envelope ───────────────────────────────────────────────────────

#[test]
fn square_test_clock_envelope_decreases_volume() {
    let mut ch = triggered_ch(1000, 2, 8);
    ch.env_period = 1;
    ch.env_add    = false;
    ch.env_timer  = 1;
    ch.clock_envelope();
    assert_eq!(ch.volume, 7);
}

#[test]
fn square_test_clock_envelope_increases_volume() {
    let mut ch = triggered_ch(1000, 2, 8);
    ch.env_period = 1;
    ch.env_add    = true;
    ch.env_timer  = 1;
    ch.clock_envelope();
    assert_eq!(ch.volume, 9);
}

#[test]
fn square_test_clock_envelope_stops_at_max() {
    let mut ch = triggered_ch(1000, 2, 15);
    ch.env_period = 1;
    ch.env_add    = true;
    ch.env_timer  = 1;
    ch.clock_envelope();
    assert_eq!(ch.volume, 15);
    assert!(!ch.env_running);
}

#[test]
fn square_test_clock_envelope_stops_at_min() {
    let mut ch = triggered_ch(1000, 2, 0);
    ch.env_period = 1;
    ch.env_add    = false;
    ch.env_timer  = 1;
    ch.clock_envelope();
    assert_eq!(ch.volume, 0);
    assert!(!ch.env_running);
}

#[test]
fn test_clock_envelope_disabled_when_period_zero() {
    let mut ch = triggered_ch(1000, 2, 8);
    ch.env_period = 0;
    ch.clock_envelope();
    assert_eq!(ch.volume, 8, "Volume must not change when env_period=0");
}
