use gb_core::apu::wave::WaveChannel;

fn triggered_wave(freq: u16, volume_code: u8, ram: [u8; 16]) -> WaveChannel {
    let mut ch = WaveChannel::new();
    ch.dac_enabled = true;
    ch.frequency   = freq;
    ch.volume_code = volume_code;
    ch.wave_ram    = ram;
    ch.trigger();
    ch
}

// ── trigger ───────────────────────────────────────────────────────────────

#[test]
fn wave_test_trigger_enables_when_dac_on() {
    let mut ch = WaveChannel::new();
    ch.dac_enabled = true;
    ch.trigger();
    assert!(ch.enabled);
}

#[test]
fn wave_test_trigger_does_not_enable_when_dac_off() {
    let mut ch = WaveChannel::new();
    ch.dac_enabled = false;
    ch.trigger();
    assert!(!ch.enabled);
}

#[test]
fn test_trigger_resets_position_to_zero() {
    let mut ch = WaveChannel::new();
    ch.dac_enabled = true;
    ch.position    = 15;
    ch.trigger();
    assert_eq!(ch.position, 0);
}

#[test]
fn test_trigger_sets_length_to_256_when_zero() {
    let mut ch = WaveChannel::new();
    ch.dac_enabled    = true;
    ch.length_counter = 0;
    ch.trigger();
    assert_eq!(ch.length_counter, 256);
}

#[test]
fn wave_test_trigger_preserves_nonzero_length() {
    let mut ch = WaveChannel::new();
    ch.dac_enabled    = true;
    ch.length_counter = 100;
    ch.trigger();
    assert_eq!(ch.length_counter, 100);
}

// ── sample ────────────────────────────────────────────────────────────────








// ── nibble selection ──────────────────────────────────────────────────────



// ── frequency timer / position stepping ───────────────────────────────────

#[test]
fn test_step_advances_position_after_one_period() {
    // freq=1792 → period=(2048-1792)*2=512 T-cycles per step
    let ram = [0x00u8; 16];
    let mut ch = triggered_wave(1792, 1, ram);
    ch.step(512);
    assert_eq!(ch.position, 1);
}

#[test]
fn test_step_wraps_position_at_32() {
    let ram = [0x00u8; 16];
    let mut ch = triggered_wave(1792, 1, ram);
    ch.step(512 * 32); // exactly one full cycle
    assert_eq!(ch.position, 0);
}

#[test]
fn wave_test_step_does_nothing_when_disabled() {
    let mut ch = WaveChannel::new();
    ch.position = 5;
    ch.step(100_000);
    assert_eq!(ch.position, 5);
}

// ── length counter ────────────────────────────────────────────────────────

#[test]
fn wave_test_clock_length_disables_channel_at_zero() {
    let mut ch = triggered_wave(1000, 1, [0x00; 16]);
    ch.length_enabled = true;
    ch.length_counter = 1;
    ch.clock_length();
    assert!(!ch.enabled);
}

#[test]
fn test_clock_length_no_effect_when_length_disabled() {
    let mut ch = triggered_wave(1000, 1, [0x00; 16]);
    ch.length_enabled = false;
    ch.length_counter = 1;
    ch.clock_length();
    assert!(ch.enabled);
}

// ── PCM playback ──────────────────────────────────────────────────────────



#[test]
fn test_wave_playback_cycles_through_all_32_positions() {
    let mut ram = [0u8; 16];
    // Set each byte so nibbles are unique (0,1,2,3,...)
    for i in 0..16 { ram[i] = ((i * 2) as u8) << 4 | ((i * 2 + 1) as u8 & 0xF); }
    let mut ch = triggered_wave(1792, 1, ram);
    // Freq=1792: period=512 T-cycles per step
    let mut positions_seen = std::collections::HashSet::new();
    for _ in 0..32 {
        positions_seen.insert(ch.position);
        ch.step(512);
    }
    assert_eq!(positions_seen.len(), 32, "All 32 positions must be visited");
}
