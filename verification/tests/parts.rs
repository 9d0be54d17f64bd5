use gb_core::apu::Apu;
use gb_core::input::{Button, Joypad};
use gb_core::ppu::palettes::{detect_game_name, detect_game_palette};
use gb_core::ppu::Ppu;
use gb_core::server::parse_button;
use gb_core::timer::Timer;

#[test]
fn timer_counters_round_trip() {
    let t = Timer::from_counters(0x1234, 77);
    assert_eq!(t.counters(), (0x1234, 77));
    assert_eq!(t.div(), 0x12);
}

#[test]
fn joypad_state_round_trip() {
    let mut j = Joypad::new();
    j.press(Button::Start);
    j.press(Button::Left);
    let k = Joypad::from_state(j.pressed_buttons(), j.irq_pending);
    assert!(k.is_pressed(Button::Start));
    assert!(k.is_pressed(Button::Left));
    assert!(!k.is_pressed(Button::A));
    assert_eq!(k.irq_pending, j.irq_pending);
    assert_eq!(k.pressed_buttons(), [false, false, false, true, false, true, false, false]);
}

#[test]
fn ppu_parts_round_trip() {
    let p = Ppu::new();
    let (idx, prio) = p.line_buffers();
    let q = Ppu::from_parts(
        p.framebuffer.clone(),
        idx,
        prio,
        (5, 3, 9),
        true,
        p.cgb_mode,
        p.force_dmg_palette,
        p.dmg_palettes.clone(),
    );
    assert_eq!(q.timing(), (5, 3, 9));
    assert!(q.frame_ready);
    assert!(q.is_consistent());
    assert_eq!(q.framebuffer, p.framebuffer);
}

#[test]
fn apu_parts_round_trip() {
    let a = Apu::new();
    let b = Apu::from_parts(a.ch1, a.ch2, (0x700, 3, true, 1234, 5), true);
    assert_eq!(b.sequencer_state(), (0x700, 3, true, 1234, 5));
    assert!(b.apu_enabled);
    assert!(b.mix_log.is_empty());
}

#[test]
fn button_names_in_any_case() {
    assert_eq!(parse_button("START"), Some(Button::Start));
    assert_eq!(parse_button("Select"), Some(Button::Select));
    assert_eq!(parse_button("sTaRt!"), None);
}

#[test]
fn game_name_and_palette_agree() {
    for t in ["TETRIS", "super mario land", "UNKNOWN GAME", "pokemon red", "", "Kirby's Dream"] {
        assert_eq!(detect_game_name(t).is_some(), detect_game_palette(t).is_some(), "{}", t);
    }
    assert_eq!(detect_game_name("TETRIS"), Some("Tetris"));
    assert_eq!(detect_game_name("super mario land"), Some("Super Mario"));
}

#[test]
fn cgb_mode_setter_switches_registers() {
    let mut m = gb_core::mmu::Mmu::new();
    m.set_cgb_mode(true);
    assert!(m.cgb_mode);
    m.write_byte(0xFF70, 3);
    assert_eq!(m.read_byte(0xFF70), 3);
    m.write_byte(0xFF70, 0);
    assert_eq!(m.read_byte(0xFF70), 1);
    m.set_cgb_mode(false);
    assert!(!m.cgb_mode);
}

#[test]
fn rtc_setter_sets_clock() {
    let mut c = gb_core::cartridge::mbc3::Mbc3::new(vec![0u8; 0x8000], 1);
    c.set_rtc([5, 4, 3, 2, 1]);
    assert_eq!(c.rtc, [5, 4, 3, 2, 1]);
}
