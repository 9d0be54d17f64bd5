use gb_core::rom_test::{run_test_rom, TestResult};

/// A ROM-only image whose program prints `text` on the serial port and then
/// loops forever.
fn printing_rom(text: &[u8]) -> Vec<u8> {
    let mut rom = vec![0u8; 0x8000];
    let mut pc = 0x0100;
    for &ch in text {
        for b in [0x3E, ch, 0xE0, 0x01, 0x3E, 0x81, 0xE0, 0x02] {
            rom[pc] = b;
            pc += 1;
        }
        // Skip over the header area if the program grows into it.
        assert!(pc < 0x0134);
    }
    rom[pc] = 0x18; // JR -2
    rom[pc + 1] = 0xFE;
    let cs = rom[0x0134..=0x014C]
        .iter()
        .fold(0u8, |acc, &b| acc.wrapping_sub(b).wrapping_sub(1));
    rom[0x014D] = cs;
    rom
}

#[test]
fn rom_printing_passed_passes() {
    assert!(matches!(run_test_rom(printing_rom(b"Passed")), TestResult::Passed));
}

#[test]
fn rom_printing_failed_fails_with_output() {
    match run_test_rom(printing_rom(b"Failed")) {
        TestResult::Failed(s) => assert_eq!(s, "Failed"),
        other => panic!("expected a failure, got {:?}", other),
    }
}

#[test]
fn short_rom_is_a_bad_cartridge() {
    match run_test_rom(vec![0u8; 10]) {
        TestResult::Failed(s) => assert_eq!(s, "Bad cartridge: ROM too short to contain header"),
        other => panic!("expected a failure, got {:?}", other),
    }
}
