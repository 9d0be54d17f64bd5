use gb_core::desktop::{palette_name, Session};
use gb_core::input::Button;
use gb_core::keymap::Key;
use gb_core::ppu::palettes::MANUAL_PALETTE_NAMES;

fn make_rom_titled(title: &[u8], cgb_flag: u8) -> Vec<u8> {
    let mut rom = vec![0u8; 0x8000];
    rom[0x0134..0x0134 + title.len()].copy_from_slice(title);
    rom[0x0143] = cgb_flag;
    let cs = rom[0x0134..=0x014C]
        .iter()
        .fold(0u8, |acc, &b| acc.wrapping_sub(b).wrapping_sub(1));
    rom[0x014D] = cs;
    rom
}

#[test]
fn blank_session_title() {
    let s = Session::blank();
    assert_eq!(s.title(), "Game Boy Emulator [Game Palette]");
    assert_eq!(s.runner.cpu.mmu.read_byte(0xFF40), 0x91);
}

#[test]
fn rom_session_title_and_palettes() {
    let mut s = Session::with_rom(make_rom_titled(b"TETRIS", 0x00)).unwrap();
    assert_eq!(s.title(), "Tetris [Game Palette]");
    s.palette_next();
    assert_eq!(s.title(), format!("Tetris [{}]", MANUAL_PALETTE_NAMES[0]));
    s.palette_prev();
    s.palette_prev();
    assert_eq!(s.palette_idx, Some(MANUAL_PALETTE_NAMES.len() - 2));
    s.palette_game();
    assert_eq!(s.palette_idx, None);
    assert!(!s.runner.cpu.ppu.force_dmg_palette);
}

#[test]
fn cgb_session_is_native() {
    let s = Session::with_rom(make_rom_titled(b"CGB", 0xC0)).unwrap();
    assert!(s.is_cgb);
    assert_eq!(s.title(), "CGB [Native]");
    assert_eq!(s.runner.cpu.regs.a, 0x11);
}

#[test]
fn bad_rom_session_reports_the_cartridge_error() {
    let e = Session::with_rom(vec![0u8; 0x100]).err().unwrap();
    assert_eq!(e, "ROM too short to contain header");
}

#[test]
fn keys_press_and_release_buttons() {
    let mut s = Session::blank();
    s.apply_keys(&[Key::Z, Key::Up, Key::Space], &[]);
    assert!(s.runner.cpu.joypad.is_pressed(Button::A));
    assert!(s.runner.cpu.joypad.is_pressed(Button::Up));
    s.apply_keys(&[Key::Up], &[Key::Z, Key::Up, Key::Space]);
    assert!(!s.runner.cpu.joypad.is_pressed(Button::A));
    assert!(s.runner.cpu.joypad.is_pressed(Button::Up));
}

#[test]
fn palette_names() {
    assert_eq!(palette_name(None, true), "Native");
    assert_eq!(palette_name(None, false), "Game Palette");
    assert_eq!(palette_name(Some(2), false), MANUAL_PALETTE_NAMES[2]);
}

#[test]
fn session_runs_frames() {
    let mut s = Session::blank();
    s.runner.cpu.mmu.load_rom(&vec![0u8; 0x8000]).unwrap();
    assert!(s.runner.run_frame());
    assert_eq!(s.runner.frame_count(), 1);
}
