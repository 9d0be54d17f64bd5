use gb_core::cartridge::mbc1::Mbc1;
use gb_core::cartridge::ROM_BANK_SIZE;

/// Build an MBC1 with `num_banks` × 16 KiB ROM banks.
/// Bank N is filled with byte N (for easy identification).
fn mbc1_with_banks(num_banks: usize, num_ram_banks: u8) -> Mbc1 {
    let mut rom = vec![0u8; num_banks * ROM_BANK_SIZE];
    for bank in 0..num_banks {
        let start = bank * ROM_BANK_SIZE;
        for byte in &mut rom[start..start + ROM_BANK_SIZE] {
            *byte = bank as u8;
        }
    }
    Mbc1::new(rom, num_ram_banks)
}

// ── default state ─────────────────────────────────────────────────────────

#[test]
fn test_default_bank0_reads_bank0() {
    let mbc = mbc1_with_banks(4, 0);
    assert_eq!(mbc.read_rom(0x0000), 0x00);
}

#[test]
fn test_default_bank_n_reads_bank1() {
    // Default rom_bank_lo = 1
    let mbc = mbc1_with_banks(4, 0);
    assert_eq!(mbc.read_rom(0x4000), 0x01);
}

// ── ROM bank switching ────────────────────────────────────────────────────

#[test]
fn mbc1_test_select_bank_2() {
    let mut mbc = mbc1_with_banks(4, 0);
    mbc.write_rom(0x2000, 0x02);
    assert_eq!(mbc.read_rom(0x4000), 0x02);
}

#[test]
fn mbc1_test_select_bank_3() {
    let mut mbc = mbc1_with_banks(4, 0);
    mbc.write_rom(0x2000, 0x03);
    assert_eq!(mbc.read_rom(0x4000), 0x03);
}

#[test]
fn test_bank_0_write_maps_to_bank_1() {
    // Writing 0x00 to 0x2000 should resolve to bank 1
    let mut mbc = mbc1_with_banks(4, 0);
    mbc.write_rom(0x2000, 0x00);
    assert_eq!(mbc.read_rom(0x4000), 0x01);
}

#[test]
fn mbc1_test_bank_mask_wraps_for_small_rom() {
    // 4 banks → mask = 3; selecting bank 5 → 5 & 3 = 1
    let mut mbc = mbc1_with_banks(4, 0);
    mbc.write_rom(0x2000, 0x05);
    assert_eq!(mbc.read_rom(0x4000), 0x01); // 5 & 3 = 1
}

#[test]
fn test_hi_bank_bits_select_upper_banks() {
    // 32 banks → lo=0x01, hi=0x01 → bank = (1<<5)|1 = 33 & 31 = 1... 
    // Use 64 banks so hi bits matter: hi=1, lo=1 → bank 33
    let mut mbc = mbc1_with_banks(64, 0);
    mbc.write_rom(0x2000, 0x01); // lo = 1
    mbc.write_rom(0x4000, 0x01); // hi = 1 → bank = (1<<5)|1 = 33
    assert_eq!(mbc.read_rom(0x4000), 33);
}

// ── RAM enable ────────────────────────────────────────────────────────────

#[test]
fn mbc1_test_ram_disabled_reads_0xff() {
    let mbc = mbc1_with_banks(4, 1);
    assert_eq!(mbc.read_ram(0x0000), 0xFF);
}

#[test]
fn mbc1_test_ram_enable_allows_write_and_read() {
    let mut mbc = mbc1_with_banks(4, 1);
    mbc.write_rom(0x0000, 0x0A); // enable RAM
    mbc.write_ram(0x0000, 0x55);
    assert_eq!(mbc.read_ram(0x0000), 0x55);
}

#[test]
fn test_ram_disabled_write_ignored() {
    let mut mbc = mbc1_with_banks(4, 1);
    // RAM not enabled
    mbc.write_ram(0x0000, 0x55);
    mbc.write_rom(0x0000, 0x0A); // enable RAM
    assert_eq!(mbc.read_ram(0x0000), 0x00); // write was ignored, RAM zeroed
}

#[test]
fn test_ram_disable_prevents_reads_after_enable() {
    let mut mbc = mbc1_with_banks(4, 1);
    mbc.write_rom(0x0000, 0x0A); // enable
    mbc.write_ram(0x0000, 0x42);
    mbc.write_rom(0x0000, 0x00); // disable
    assert_eq!(mbc.read_ram(0x0000), 0xFF);
}

// ── Banking mode ──────────────────────────────────────────────────────────

#[test]
fn test_rom_mode_is_default() {
    let mbc = mbc1_with_banks(4, 0);
    assert_eq!(mbc.mode, 0);
}

#[test]
fn test_switch_to_ram_mode() {
    let mut mbc = mbc1_with_banks(4, 1);
    mbc.write_rom(0x6000, 0x01);
    assert_eq!(mbc.mode, 1);
}

#[test]
fn test_ram_mode_selects_ram_bank() {
    let mut mbc = mbc1_with_banks(4, 4);
    mbc.write_rom(0x0000, 0x0A); // enable RAM
    mbc.write_rom(0x6000, 0x01); // RAM mode
    mbc.write_rom(0x4000, 0x01); // select RAM bank 1
    mbc.write_ram(0x0000, 0xBB); // write to bank 1
    // Switch to bank 0 and verify isolation
    mbc.write_rom(0x4000, 0x00);
    assert_eq!(mbc.read_ram(0x0000), 0x00, "Bank 0 must not see bank 1 data");
    // Switch back to bank 1
    mbc.write_rom(0x4000, 0x01);
    assert_eq!(mbc.read_ram(0x0000), 0xBB, "Bank 1 data must survive bank switch");
}

#[test]
fn test_ram_mode_fixes_rom_bank0_to_bank0() {
    let mut mbc = mbc1_with_banks(64, 0);
    mbc.write_rom(0x4000, 0x01); // hi bits = 1
    mbc.write_rom(0x6000, 0x01); // RAM mode → bank 0 area always maps to bank 0
    assert_eq!(mbc.read_rom(0x0000), 0x00, "Bank 0 window must read physical bank 0");
}
