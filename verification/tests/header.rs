use gb_core::cartridge::header::{ram_banks, CartridgeHeader};

fn make_header(title: &[u8], cgb_flag: u8, cart_type: u8, rom_code: u8, ram_code: u8) -> Vec<u8> {
    let mut rom = vec![0u8; 0x0150];
    let len = title.len().min(16);
    rom[0x0134..0x0134+len].copy_from_slice(&title[..len]);
    rom[0x0143] = cgb_flag;
    rom[0x0147] = cart_type;
    rom[0x0148] = rom_code;
    rom[0x0149] = ram_code;
    let cs: u8 = rom[0x0134..=0x014C]
        .iter()
        .fold(0u8, |a, &b| a.wrapping_sub(b).wrapping_sub(1));
    rom[0x014D] = cs;
    rom
}

#[test]
fn test_parse_dmg_header() {
    let rom = make_header(b"TETRIS", 0x00, 0x00, 0x00, 0x00);
    let h = CartridgeHeader::parse(&rom).unwrap();
    assert_eq!(h.title, "TETRIS");
    assert!(!h.is_cgb());
    assert!(h.is_dmg_only());
}

#[test]
fn test_parse_cgb_compatible() {
    let rom = make_header(b"POKEMON", 0x80, 0x00, 0x00, 0x00);
    let h = CartridgeHeader::parse(&rom).unwrap();
    assert!(h.is_cgb());
}

#[test]
fn test_parse_cgb_only() {
    let rom = make_header(b"CRYSTAL", 0xC0, 0x00, 0x00, 0x00);
    let h = CartridgeHeader::parse(&rom).unwrap();
    assert!(h.is_cgb());
}

#[test]
fn test_bad_checksum_returns_err() {
    let mut rom = make_header(b"TEST", 0x00, 0x00, 0x00, 0x00);
    rom[0x014D] ^= 0xFF; // corrupt checksum
    assert!(CartridgeHeader::parse(&rom).is_err());
}

#[test]
fn test_too_short_returns_err() {
    assert!(CartridgeHeader::parse(&[0u8; 10]).is_err());
}

#[test]
fn test_ram_banks() {
    assert_eq!(ram_banks(0x00), Some(0));
    assert_eq!(ram_banks(0x02), Some(1));
    assert_eq!(ram_banks(0x03), Some(4));
}
