use gb_core::gbc_bios_palettes::{apply_bios_palettes, is_pokemon_yellow, title_checksum};
use gb_core::ppu::cgb_palette::CgbPalette;

fn make_rom_with_title(title: &[u8]) -> Vec<u8> {
    let mut rom = vec![0u8; 0x8000];
    let end = (0x013C).min(0x0134 + title.len());
    rom[0x0134..end].copy_from_slice(&title[..end - 0x0134]);
    rom
}

#[test]
fn test_apply_bios_palettes_does_not_panic() {
    let rom = make_rom_with_title(b"TETRIS");
    let mut bg  = CgbPalette::new();
    let mut obj = CgbPalette::new();
    apply_bios_palettes(&rom, &mut bg, &mut obj);
}

#[test]
fn test_apply_sets_nonzero_bg_color() {
    let rom = make_rom_with_title(b"TETRIS");
    let mut bg  = CgbPalette::new();
    let mut obj = CgbPalette::new();
    apply_bios_palettes(&rom, &mut bg, &mut obj);
    // At least one non-0xFF palette byte should have been written
    let all_ff = bg.ram.iter().all(|&b| b == 0xFF);
    assert!(!all_ff, "BG palette should have been written");
}

#[test]
fn test_pokemon_yellow_gets_red_cheeks() {
    let rom = make_rom_with_title(b"POKEMON YELLOW");
    let mut bg  = CgbPalette::new();
    let mut obj = CgbPalette::new();
    apply_bios_palettes(&rom, &mut bg, &mut obj);
    // OBJ palette 2 color 0 should be red (non-zero in channel)
    let r = obj.ram[16]; // palette 2, color 0, low byte
    let g = obj.ram[17];
    let color = r as u16 | ((g as u16) << 8);
    assert!(color & 0x001F != 0, "Pikachu cheeks must have red component: {:04X}", color);
}

#[test]
fn test_title_checksum_empty() {
    let rom = vec![0u8; 0x0140];
    assert_eq!(title_checksum(&rom), 0);
}

#[test]
fn test_is_not_pokemon_yellow() {
    let rom = make_rom_with_title(b"POKEMON RED");
    assert!(!is_pokemon_yellow(&rom));
}

#[test]
fn full_title_field_names_pokemon_yellow() {
    let mut rom = vec![0u8; 0x8000];
    rom[0x134..0x142].copy_from_slice(b"POKEMON YELLOW");
    assert!(is_pokemon_yellow(&rom));
    let mut lower = vec![0u8; 0x8000];
    lower[0x134..0x142].copy_from_slice(b"pokemon yellow");
    assert!(is_pokemon_yellow(&lower));
    // The eight-byte prefix alone does not name it.
    let mut short = vec![0u8; 0x8000];
    short[0x134..0x13C].copy_from_slice(b"POKEMON ");
    assert!(!is_pokemon_yellow(&short));
    // A ROM that stops inside the title field has no title to match.
    let mut cut = vec![0u8; 0x0143];
    cut[0x134..0x142].copy_from_slice(b"POKEMON YELLOW");
    assert!(!is_pokemon_yellow(&cut));
}

#[test]
fn full_title_pokemon_yellow_gets_yellow_world() {
    let mut rom = vec![0u8; 0x8000];
    rom[0x134..0x142].copy_from_slice(b"POKEMON YELLOW");
    let mut bg = CgbPalette::new();
    let mut obj = CgbPalette::new();
    apply_bios_palettes(&rom, &mut bg, &mut obj);
    // 0xF8D000 as RGB555: r 31, g 26, b 0 -> 0x035F.
    assert_eq!(bg.ram[2], 0x5F);
    assert_eq!(bg.ram[3], 0x03);
    // Cheeks 0xFF0000 -> r 31 -> 0x001F.
    assert_eq!(obj.ram[16], 0x1F);
    assert_eq!(obj.ram[17], 0x00);
}
