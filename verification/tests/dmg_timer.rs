use gb_core::dmg::mmu::Mmu;
use gb_core::dmg::timer::{Timer, DIV_ADDR, TAC_ADDR, TIMA_ADDR, TMA_ADDR};
use gb_core::timer::tima_period;

// Helpers
fn setup() -> (Timer, Mmu) {
    (Timer::new(), Mmu::new())
}

fn enabled_tac(bits: u8) -> u8 {
    0x04 | (bits & 0x03) // timer enable bit + clock select
}

// ── tima_period ───────────────────────────────────────────────────────────

#[test]
fn test_tima_period_00_is_1024() {
    assert_eq!(tima_period(0b00), 1024);
}

#[test]
fn test_tima_period_01_is_16() {
    assert_eq!(tima_period(0b01), 16);
}

#[test]
fn test_tima_period_10_is_64() {
    assert_eq!(tima_period(0b10), 64);
}

#[test]
fn test_tima_period_11_is_256() {
    assert_eq!(tima_period(0b11), 256);
}

// ── DIV ──────────────────────────────────────────────────────────────────

#[test]
fn test_div_starts_at_zero() {
    let timer = Timer::new();
    assert_eq!(timer.div(), 0);
}

#[test]
fn test_div_in_mmu_after_256_cycles() {
    let (mut timer, mut mmu) = setup();
    timer.step(256, &mut mmu);
    assert_eq!(mmu.read_byte(DIV_ADDR), 1);
}

#[test]
fn test_div_not_incremented_before_256_cycles() {
    let (mut timer, mut mmu) = setup();
    timer.step(255, &mut mmu);
    assert_eq!(mmu.read_byte(DIV_ADDR), 0);
}

#[test]
fn test_div_increments_multiple_times() {
    let (mut timer, mut mmu) = setup();
    timer.step(512, &mut mmu);
    assert_eq!(mmu.read_byte(DIV_ADDR), 2);
}

#[test]
fn test_div_accumulates_across_small_steps() {
    let (mut timer, mut mmu) = setup();
    for _ in 0..256 {
        timer.step(1, &mut mmu);
    }
    assert_eq!(mmu.read_byte(DIV_ADDR), 1);
}

#[test]
fn test_div_wraps_at_256_increments() {
    let (mut timer, mut mmu) = setup();
    // 256 increments × 256 cycles each = 65536 T-cycles → u16 wraps to 0
    timer.step(256u32 * 256, &mut mmu);
    assert_eq!(mmu.read_byte(DIV_ADDR), 0);
}

#[test]
fn test_reset_div_clears_counter() {
    let (mut timer, mut mmu) = setup();
    timer.step(200, &mut mmu);
    timer.reset_div();
    assert_eq!(timer.div(), 0);
}

#[test]
fn test_reset_div_requires_full_period_before_next_increment() {
    let (mut timer, mut mmu) = setup();
    timer.step(200, &mut mmu);
    timer.reset_div();
    // Only 255 more cycles — not enough for a full 256-cycle increment
    timer.step(255, &mut mmu);
    assert_eq!(mmu.read_byte(DIV_ADDR), 0);
}

#[test]
fn test_reset_div_also_resets_tima_counter() {
    // With period=16 and 8 accumulated cycles, reset should
    // require a full 16 more before next TIMA increment.
    let (mut timer, mut mmu) = setup();
    mmu.write_byte(TAC_ADDR, enabled_tac(0b01)); // period=16
    timer.step(8, &mut mmu); // 8 cycles accumulated
    timer.reset_div();       // resets tima_counter too
    timer.step(15, &mut mmu);
    assert_eq!(mmu.read_byte(TIMA_ADDR), 0, "TIMA must not increment with <16 cycles after reset");
}

// ── TIMA disabled ────────────────────────────────────────────────────────

#[test]
fn test_tima_does_not_increment_when_disabled() {
    let (mut timer, mut mmu) = setup();
    mmu.write_byte(TAC_ADDR, 0x00); // enable bit clear
    timer.step(100_000, &mut mmu);
    assert_eq!(mmu.read_byte(TIMA_ADDR), 0);
}

#[test]
fn test_step_returns_false_when_timer_disabled() {
    let (mut timer, mut mmu) = setup();
    mmu.write_byte(TAC_ADDR, 0x00);
    assert!(!timer.step(100_000, &mut mmu));
}

// ── TIMA frequency ───────────────────────────────────────────────────────

#[test]
fn test_tima_increments_at_4096hz() {
    let (mut timer, mut mmu) = setup();
    mmu.write_byte(TAC_ADDR, enabled_tac(0b00)); // 1024 T-cycles
    timer.step(1024, &mut mmu);
    assert_eq!(mmu.read_byte(TIMA_ADDR), 1);
}

#[test]
fn test_tima_no_increment_before_4096hz_period() {
    let (mut timer, mut mmu) = setup();
    mmu.write_byte(TAC_ADDR, enabled_tac(0b00));
    timer.step(1023, &mut mmu);
    assert_eq!(mmu.read_byte(TIMA_ADDR), 0);
}

#[test]
fn test_tima_increments_at_262144hz() {
    let (mut timer, mut mmu) = setup();
    mmu.write_byte(TAC_ADDR, enabled_tac(0b01)); // 16 T-cycles
    timer.step(16, &mut mmu);
    assert_eq!(mmu.read_byte(TIMA_ADDR), 1);
}

#[test]
fn test_tima_increments_at_65536hz() {
    let (mut timer, mut mmu) = setup();
    mmu.write_byte(TAC_ADDR, enabled_tac(0b10)); // 64 T-cycles
    timer.step(64, &mut mmu);
    assert_eq!(mmu.read_byte(TIMA_ADDR), 1);
}

#[test]
fn test_tima_increments_at_16384hz() {
    let (mut timer, mut mmu) = setup();
    mmu.write_byte(TAC_ADDR, enabled_tac(0b11)); // 256 T-cycles
    timer.step(256, &mut mmu);
    assert_eq!(mmu.read_byte(TIMA_ADDR), 1);
}

#[test]
fn test_tima_increments_multiple_times_in_one_step() {
    let (mut timer, mut mmu) = setup();
    mmu.write_byte(TAC_ADDR, enabled_tac(0b00)); // period = 1024
    timer.step(1024 * 5, &mut mmu);
    assert_eq!(mmu.read_byte(TIMA_ADDR), 5);
}

#[test]
fn test_tima_accumulates_across_small_steps() {
    let (mut timer, mut mmu) = setup();
    mmu.write_byte(TAC_ADDR, enabled_tac(0b00)); // period = 1024
    for _ in 0..1024 {
        timer.step(1, &mut mmu);
    }
    assert_eq!(mmu.read_byte(TIMA_ADDR), 1);
}

// ── TIMA overflow ─────────────────────────────────────────────────────────

#[test]
fn test_tima_overflow_reloads_from_tma() {
    let (mut timer, mut mmu) = setup();
    mmu.write_byte(TAC_ADDR,  enabled_tac(0b01)); // period = 16
    mmu.write_byte(TMA_ADDR,  0x42);
    mmu.write_byte(TIMA_ADDR, 0xFF);
    timer.step(16, &mut mmu);
    assert_eq!(mmu.read_byte(TIMA_ADDR), 0x42);
}

#[test]
fn test_tima_overflow_returns_true() {
    let (mut timer, mut mmu) = setup();
    mmu.write_byte(TAC_ADDR,  enabled_tac(0b01));
    mmu.write_byte(TIMA_ADDR, 0xFF);
    assert!(timer.step(16, &mut mmu));
}

#[test]
fn test_tima_no_overflow_returns_false() {
    let (mut timer, mut mmu) = setup();
    mmu.write_byte(TAC_ADDR,  enabled_tac(0b01));
    mmu.write_byte(TIMA_ADDR, 0x00);
    assert!(!timer.step(16, &mut mmu));
}

#[test]
fn test_tima_overflow_with_zero_tma_reloads_zero() {
    let (mut timer, mut mmu) = setup();
    mmu.write_byte(TAC_ADDR,  enabled_tac(0b01));
    mmu.write_byte(TMA_ADDR,  0x00);
    mmu.write_byte(TIMA_ADDR, 0xFF);
    timer.step(16, &mut mmu);
    assert_eq!(mmu.read_byte(TIMA_ADDR), 0x00);
}

#[test]
fn test_tima_multiple_overflows_in_one_step() {
    // TIMA=0xFE, period=16, step 32 T-cycles:
    //   tick 1: 0xFE → 0xFF
    //   tick 2: 0xFF overflows → reload TMA=0x00, interrupt
    let (mut timer, mut mmu) = setup();
    mmu.write_byte(TAC_ADDR,  enabled_tac(0b01)); // period = 16
    mmu.write_byte(TMA_ADDR,  0x00);
    mmu.write_byte(TIMA_ADDR, 0xFE);
    let fired = timer.step(32, &mut mmu);
    assert!(fired);
    assert_eq!(mmu.read_byte(TIMA_ADDR), 0x00);
}

#[test]
fn test_tima_continues_from_tma_after_overflow() {
    // After overflow reload, TIMA should keep counting from TMA,
    // not from zero.
    let (mut timer, mut mmu) = setup();
    mmu.write_byte(TAC_ADDR,  enabled_tac(0b01)); // period = 16
    mmu.write_byte(TMA_ADDR,  0x10);
    mmu.write_byte(TIMA_ADDR, 0xFF);
    // Overflow tick: reloads 0x10
    timer.step(16, &mut mmu);
    assert_eq!(mmu.read_byte(TIMA_ADDR), 0x10);
    // One more tick: 0x10 → 0x11
    timer.step(16, &mut mmu);
    assert_eq!(mmu.read_byte(TIMA_ADDR), 0x11);
}

// ── TAC frequency behaviour ───────────────────────────────────────────────

#[test]
fn test_switching_tac_frequency_changes_period() {
    let (mut timer, mut mmu) = setup();
    // Start at 262144 Hz (16 T-cycles)
    mmu.write_byte(TAC_ADDR, enabled_tac(0b01));
    timer.step(16, &mut mmu);
    assert_eq!(mmu.read_byte(TIMA_ADDR), 1);

    // Switch to 4096 Hz (1024 T-cycles) — 16 more cycles should NOT tick
    mmu.write_byte(TAC_ADDR, enabled_tac(0b00));
    timer.step(16, &mut mmu);
    assert_eq!(mmu.read_byte(TIMA_ADDR), 1, "TIMA must not increment at new slower rate yet");
}
