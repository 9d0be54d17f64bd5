use gb_core::cartridge::mbc2::{Mbc2, MBC2_RAM_SIZE};
use gb_core::cartridge::ROM_BANK_SIZE;

fn mbc2_with_banks(num_banks: usize) -> Mbc2 {
    let mut rom = vec![0u8; num_banks * ROM_BANK_SIZE];
    for bank in 0..num_banks {
        let start = bank * ROM_BANK_SIZE;
        for byte in &mut rom[start..start + ROM_BANK_SIZE] {
            *byte = bank as u8;
        }
    }
    Mbc2::new(rom)
}

// ── ROM reads ─────────────────────────────────────────────────────────────

#[test]
fn mbc2_test_bank0_always_reads_physical_bank_0() {
    let mbc = mbc2_with_banks(4);
    assert_eq!(mbc.read_rom(0x0000), 0x00);
}

#[test]
fn mbc2_test_default_bank_n_reads_bank_1() {
    let mbc = mbc2_with_banks(4);
    assert_eq!(mbc.read_rom(0x4000), 0x01);
}

#[test]
fn mbc2_test_rom_bank_switching() {
    let mut mbc = mbc2_with_banks(4);
    // Bit 8 set → ROM bank select
    mbc.write_rom(0x0100, 0x02);
    assert_eq!(mbc.read_rom(0x4000), 0x02);
}

#[test]
fn mbc2_test_bank_0_maps_to_bank_1() {
    let mut mbc = mbc2_with_banks(4);
    mbc.write_rom(0x0100, 0x00);
    assert_eq!(mbc.read_rom(0x4000), 0x01);
}

#[test]
fn test_rom_bank_only_4_bits() {
    // Lower 4 bits only: 0x12 & 0x0F = 2
    let mut mbc = mbc2_with_banks(4);
    mbc.write_rom(0x0100, 0x12);
    assert_eq!(mbc.read_rom(0x4000), 0x02);
}

// ── RAM enable ────────────────────────────────────────────────────────────

#[test]
fn mbc2_test_ram_disabled_by_default() {
    let mbc = mbc2_with_banks(4);
    assert_eq!(mbc.read_ram(0x0000), 0xFF);
}

#[test]
fn test_ram_enable_via_bit8_clear() {
    let mut mbc = mbc2_with_banks(4);
    // Bit 8 clear → RAM enable; lower nibble 0x0A
    mbc.write_rom(0x0000, 0x0A);
    mbc.write_ram(0x0000, 0x07);
    assert_eq!(mbc.read_ram(0x0000) & 0x0F, 0x07);
}

#[test]
fn test_ram_disabled_ignores_writes() {
    let mut mbc = mbc2_with_banks(4);
    mbc.write_ram(0x0000, 0x07);
    mbc.write_rom(0x0000, 0x0A); // now enable
    assert_eq!(mbc.read_ram(0x0000) & 0x0F, 0x00);
}

// ── RAM nibble-only storage ───────────────────────────────────────────────

#[test]
fn test_ram_upper_nibble_always_f() {
    let mut mbc = mbc2_with_banks(4);
    mbc.write_rom(0x0000, 0x0A);
    mbc.write_ram(0x0000, 0xFF);
    assert_eq!(mbc.read_ram(0x0000), 0xFF); // 0xF0 | 0x0F
}

#[test]
fn test_ram_stores_only_lower_nibble() {
    let mut mbc = mbc2_with_banks(4);
    mbc.write_rom(0x0000, 0x0A);
    mbc.write_ram(0x0001, 0xAB); // 0xAB & 0x0F = 0x0B
    assert_eq!(mbc.read_ram(0x0001) & 0x0F, 0x0B);
}

#[test]
fn test_ram_mirrors_across_512_bytes() {
    let mut mbc = mbc2_with_banks(4);
    mbc.write_rom(0x0000, 0x0A);
    mbc.write_ram(0x0000, 0x05);
    // 0xA200 mirrors to 0xA000 (offset % 512 = 0)
    assert_eq!(mbc.read_ram(0x0200) & 0x0F, 0x05);
}

#[test]
fn test_ram_size_is_512_bytes() {
    assert_eq!(MBC2_RAM_SIZE, 512);
}
