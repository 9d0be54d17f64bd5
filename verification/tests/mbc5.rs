use gb_core::cartridge::mbc5::Mbc5;
use gb_core::cartridge::ROM_BANK_SIZE;

fn mbc5_with_banks(num_banks: usize, num_ram_banks: u8) -> Mbc5 {
    let mut rom = vec![0u8; num_banks * ROM_BANK_SIZE];
    for bank in 0..num_banks {
        let start = bank * ROM_BANK_SIZE;
        for byte in &mut rom[start..start + ROM_BANK_SIZE] {
            *byte = (bank & 0xFF) as u8;
        }
    }
    Mbc5::new(rom, num_ram_banks)
}

// ── default state ─────────────────────────────────────────────────────────

#[test]
fn mbc5_test_bank0_always_reads_physical_bank_0() {
    let mbc = mbc5_with_banks(4, 0);
    assert_eq!(mbc.read_rom(0x0000), 0x00);
}

#[test]
fn mbc5_test_default_bank_n_reads_bank_1() {
    let mbc = mbc5_with_banks(4, 0);
    assert_eq!(mbc.read_rom(0x4000), 0x01);
}

// ── ROM bank switching ────────────────────────────────────────────────────

#[test]
fn test_select_bank_0_reads_bank_0() {
    // MBC5 allows bank 0 in the upper window (unlike MBC1)
    let mut mbc = mbc5_with_banks(4, 0);
    mbc.write_rom(0x2000, 0x00);
    assert_eq!(mbc.read_rom(0x4000), 0x00);
}

#[test]
fn mbc5_test_select_bank_2() {
    let mut mbc = mbc5_with_banks(4, 0);
    mbc.write_rom(0x2000, 0x02);
    assert_eq!(mbc.read_rom(0x4000), 0x02);
}

#[test]
fn mbc5_test_select_bank_3() {
    let mut mbc = mbc5_with_banks(4, 0);
    mbc.write_rom(0x2000, 0x03);
    assert_eq!(mbc.read_rom(0x4000), 0x03);
}

#[test]
fn test_hi_bit_selects_bank_256_plus() {
    // 512 banks so hi bit matters: hi=1, lo=0 → bank 256
    let mut mbc = mbc5_with_banks(512, 0);
    mbc.write_rom(0x2000, 0x00); // lo = 0
    mbc.write_rom(0x3000, 0x01); // hi = 1 → bank 256
    assert_eq!(mbc.read_rom(0x4000), (256 & 0xFF) as u8);
}

#[test]
fn mbc5_test_bank_mask_wraps_for_small_rom() {
    // 4 banks → mask = 3; selecting bank 5 → 5 & 3 = 1
    let mut mbc = mbc5_with_banks(4, 0);
    mbc.write_rom(0x2000, 0x05);
    assert_eq!(mbc.read_rom(0x4000), 0x01);
}

// ── RAM ───────────────────────────────────────────────────────────────────

#[test]
fn mbc5_test_ram_disabled_reads_0xff() {
    let mbc = mbc5_with_banks(4, 1);
    assert_eq!(mbc.read_ram(0x0000), 0xFF);
}

#[test]
fn mbc5_test_ram_enable_allows_write_and_read() {
    let mut mbc = mbc5_with_banks(4, 1);
    mbc.write_rom(0x0000, 0x0A);
    mbc.write_ram(0x0000, 0x55);
    assert_eq!(mbc.read_ram(0x0000), 0x55);
}

#[test]
fn mbc5_test_ram_bank_switching() {
    let mut mbc = mbc5_with_banks(4, 4);
    mbc.write_rom(0x0000, 0x0A); // enable RAM
    mbc.write_rom(0x4000, 0x01); // select RAM bank 1
    mbc.write_ram(0x0000, 0xAB);
    mbc.write_rom(0x4000, 0x00); // switch to bank 0
    assert_eq!(mbc.read_ram(0x0000), 0x00, "Bank 0 must not see bank 1 data");
    mbc.write_rom(0x4000, 0x01);
    assert_eq!(mbc.read_ram(0x0000), 0xAB, "Bank 1 data must survive switch");
}

#[test]
fn test_ram_disable_prevents_read() {
    let mut mbc = mbc5_with_banks(4, 1);
    mbc.write_rom(0x0000, 0x0A);
    mbc.write_ram(0x0000, 0x42);
    mbc.write_rom(0x0000, 0x00); // disable
    assert_eq!(mbc.read_ram(0x0000), 0xFF);
}
