use gb_core::apu::square::SquareChannel;
use gb_core::cpu::Cpu;
use gb_core::dmg::mmu::Mmu as DmgMmu;
use gb_core::dmg::ppu::{Ppu as DmgPpu, LCDC_ADDR as DMG_LCDC, LYC_ADDR as DMG_LYC, LY_ADDR as DMG_LY, STAT_ADDR as DMG_STAT};
use gb_core::mmu::Mmu;
use gb_core::save_state::SaveState;

fn dmg_lcd_on() -> (DmgPpu, DmgMmu) {
    let mut mmu = DmgMmu::new();
    mmu.write_byte(DMG_LCDC, 0x91);
    mmu.write_byte(DMG_STAT, 0x78);
    mmu.write_byte(DMG_LYC, 3);
    for i in 0..16u16 {
        mmu.write_byte(0x8000 + i, (i * 37) as u8);
    }
    (DmgPpu::new(), mmu)
}

#[test]
fn dmg_ppu_step_split_matches_one_step() {
    for &(a, b) in &[(0u32, 0u32), (79, 1), (100, 500), (456 * 10, 456 * 140), (3000, 70224), (70224, 70224)] {
        let (mut p1, mut m1) = dmg_lcd_on();
        let (mut p2, mut m2) = dmg_lcd_on();
        let ra = p1.step(a, &mut m1);
        let rb = p1.step(b, &mut m1);
        let r = p2.step(a + b, &mut m2);
        assert_eq!(p1.mode(), p2.mode());
        assert_eq!(m1.read_byte(DMG_LY), m2.read_byte(DMG_LY));
        assert_eq!(m1.read_byte(DMG_STAT), m2.read_byte(DMG_STAT));
        assert_eq!(p1.frame_ready, p2.frame_ready);
        assert_eq!(p1.framebuffer, p2.framebuffer);
        assert_eq!(ra.vblank_irq || rb.vblank_irq, r.vblank_irq);
        assert_eq!(ra.stat_irq || rb.stat_irq, r.stat_irq);
    }
}

fn running_square(freq: u16) -> SquareChannel {
    let mut ch = SquareChannel::new();
    ch.frequency = freq;
    ch.dac_enabled = true;
    ch.trigger();
    ch
}

#[test]
fn square_step_split_matches_one_step() {
    for &(a, b) in &[(0u32, 5u32), (1, 4095), (1024, 1024), (5000, 12345), (4096, 4096)] {
        let mut c1 = running_square(1792);
        let mut c2 = running_square(1792);
        c1.step(a);
        c1.step(b);
        c2.step(a + b);
        assert_eq!(c1.duty_step, c2.duty_step);
        assert_eq!(c1.freq_timer, c2.freq_timer);
        assert!(c1.duty_step < 8);
    }
}

#[test]
fn square_full_period_returns_duty_to_start() {
    // Frequency 1792: period (2048 - 1792) * 4 = 1024 T-cycles per step.
    let mut ch = running_square(1792);
    let start = ch.duty_step;
    ch.step(1024 * 8);
    assert_eq!(ch.duty_step, start);
}

#[test]
fn word_write_reads_back_across_wram_banks_and_hram() {
    let mut m = Mmu::new();
    m.write_word(0xC100, 0xBEEF);
    assert_eq!(m.read_byte(0xC100), 0xEF);
    assert_eq!(m.read_byte(0xC101), 0xBE);
    assert_eq!(m.read_word(0xC100), 0xBEEF);
    // The word straddles the fixed bank (0xCFFF) and the switchable one (0xD000).
    m.write_word(0xCFFF, 0x1234);
    assert_eq!(m.read_byte(0xCFFF), 0x34);
    assert_eq!(m.read_byte(0xD000), 0x12);
    assert_eq!(m.read_word(0xCFFF), 0x1234);
    m.write_word(0xFF80, 0xA55A);
    assert_eq!(m.read_word(0xFF80), 0xA55A);
}

#[test]
fn dmg_word_write_reads_back() {
    let mut m = DmgMmu::new();
    m.write_word(0xC100, 0xBEEF);
    assert_eq!(m.read_byte(0xC100), 0xEF);
    assert_eq!(m.read_byte(0xC101), 0xBE);
    assert_eq!(m.read_word(0xC100), 0xBEEF);
    m.write_word(0xFFFC, 0x0102);
    assert_eq!(m.read_word(0xFFFC), 0x0102);
}

#[test]
fn snapshot_with_short_wram_is_not_consistent() {
    let cpu = Cpu::new();
    let mut state = SaveState::capture(&cpu);
    assert!(state.is_consistent());
    state.mmu.wram.truncate(0x100);
    assert!(!state.is_consistent());
    let mut state2 = SaveState::capture(&cpu);
    state2.mmu.wram_bank = 0;
    assert!(!state2.is_consistent());
}

#[test]
fn restore_into_another_machine_keeps_its_cartridge_side() {
    let mut cpu1 = Cpu::new();
    cpu1.mmu.write_byte(0xC200, 0x77);
    cpu1.mmu.write_byte(0xFE10, 0x66);
    cpu1.mmu.write_byte(0xFF90, 0x55);
    cpu1.regs.b = 9;
    let state = SaveState::capture(&cpu1);
    let mut cpu2 = Cpu::new();
    cpu2.regs.b = 1;
    cpu2.mmu.write_byte(0xC200, 0x11);
    state.restore(&mut cpu2).unwrap();
    assert_eq!(cpu2.regs.b, 9);
    assert_eq!(cpu2.mmu.read_byte(0xC200), 0x77);
    assert_eq!(cpu2.mmu.read_byte(0xE200), 0x77);
    assert_eq!(cpu2.mmu.read_byte(0xFE10), 0x66);
    assert_eq!(cpu2.mmu.read_byte(0xFF90), 0x55);
}
