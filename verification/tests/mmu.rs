use gb_core::mmu::Mmu;

fn mmu() -> Mmu {
    Mmu::new()
}

// ── Basic read/write ──────────────────────────────────────────────────────

#[test]
fn test_wram_write_read() {
    let mut m = mmu();
    m.write_byte(0xC100, 0xAB);
    assert_eq!(m.read_byte(0xC100), 0xAB);
}

#[test]
fn test_hram_write_read() {
    let mut m = mmu();
    m.write_byte(0xFF81, 0x55);
    assert_eq!(m.read_byte(0xFF81), 0x55);
}

#[test]
fn test_ie_write_read() {
    let mut m = mmu();
    m.write_byte(0xFFFF, 0x1F);
    assert_eq!(m.read_byte(0xFFFF), 0x1F);
}

#[test]
fn test_vram_write_read() {
    let mut m = mmu();
    m.write_byte(0x8100, 0xCD);
    assert_eq!(m.read_byte(0x8100), 0xCD);
}

// ── VRAM banking ──────────────────────────────────────────────────────────

#[test]
fn test_vram_bank_switch() {
    let mut m = mmu();
    m.cgb_mode = true;
    // Write to bank 0
    m.vram_bank = 0;
    m.write_byte(0x8000, 0x11);
    // Switch to bank 1
    m.write_byte(0xFF4F, 0x01);
    assert_eq!(m.vram_bank, 1);
    m.write_byte(0x8000, 0x22);
    // Back to bank 0
    m.write_byte(0xFF4F, 0x00);
    assert_eq!(m.read_byte(0x8000), 0x11);
    m.write_byte(0xFF4F, 0x01);
    assert_eq!(m.read_byte(0x8000), 0x22);
}

#[test]
fn test_read_vram_bank_explicit() {
    let mut m = mmu();
    m.vram[0x0000] = 0xAA; // bank 0 offset 0
    m.vram[0x2000] = 0xBB; // bank 1 offset 0
    assert_eq!(m.read_vram_bank(0x8000, 0), 0xAA);
    assert_eq!(m.read_vram_bank(0x8000, 1), 0xBB);
}

// ── WRAM banking ──────────────────────────────────────────────────────────

#[test]
fn test_wram_bank_switch() {
    let mut m = mmu();
    m.cgb_mode = true;
    // Write to D000 in bank 1 (default)
    m.write_byte(0xD000, 0x11);
    // Switch to bank 2
    m.write_byte(0xFF70, 0x02);
    assert_eq!(m.wram_bank, 2);
    m.write_byte(0xD000, 0x22);
    // Back to bank 1
    m.write_byte(0xFF70, 0x01);
    assert_eq!(m.read_byte(0xD000), 0x11);
    m.write_byte(0xFF70, 0x02);
    assert_eq!(m.read_byte(0xD000), 0x22);
}

#[test]
fn test_wram_bank_0_always_at_c000() {
    let mut m = mmu();
    m.cgb_mode = true;
    m.wram_bank = 3;
    m.write_byte(0xC100, 0x42);
    // bank 0, offset 0x100
    assert_eq!(m.wram[0x100], 0x42);
}

// ── CGB palettes ──────────────────────────────────────────────────────────

#[test]
fn test_cgb_bg_palette_write_read() {
    let mut m = mmu();
    m.cgb_mode = true;
    m.write_byte(0xFF68, 0x80); // auto-increment, index 0
    m.write_byte(0xFF69, 0xFF);
    m.write_byte(0xFF69, 0x7F);
    // palette 0, color 0 should be white (0x7FFF)
    assert_eq!(m.bg_palette.get_color(0, 0), 0x00FFFFFF);
}

#[test]
fn test_cgb_obj_palette_write_read() {
    let mut m = mmu();
    m.cgb_mode = true;
    m.write_byte(0xFF6A, 0x80); // auto-increment, index 0
    m.write_byte(0xFF6B, 0x00);
    m.write_byte(0xFF6B, 0x00);
    assert_eq!(m.obj_palette.get_color(0, 0), 0x00000000);
}

// ── OAM DMA ───────────────────────────────────────────────────────────────

#[test]
fn test_oam_dma_copies_from_wram() {
    let mut m = mmu();
    m.write_byte(0xC000, 0xAB);
    m.write_byte(0xFF46, 0xC0); // DMA from 0xC000
    assert_eq!(m.oam[0], 0xAB);
}

// ── Speed switch ──────────────────────────────────────────────────────────

#[test]
fn test_speed_switch_toggles_double_speed() {
    let mut m = mmu();
    m.cgb_mode = true;
    m.write_byte(0xFF4D, 0x01); // prepare
    assert!(m.prepare_speed_switch);
    m.execute_speed_switch();
    assert!(m.double_speed);
    assert!(!m.prepare_speed_switch);
}

// ── Tick RTC ──────────────────────────────────────────────────────────────

#[test]
fn test_tick_cartridge_rtc_no_cart() {
    let mut m = mmu();
    m.tick_cartridge_rtc(4_194_304); // should not panic
}

// ── load_rom ──────────────────────────────────────────────────────────────

#[test]
fn test_load_rom_too_small_returns_err() {
    let mut m = mmu();
    assert!(m.load_rom(&[0u8; 100]).is_err());
}

#[test]
fn test_load_rom_reads_back() {
    let mut m = mmu();
    let mut rom = vec![0u8; 0x8000];
    rom[0x0100] = 0x42;
    m.load_rom(&rom).unwrap();
    assert_eq!(m.read_byte(0x0100), 0x42);
}
