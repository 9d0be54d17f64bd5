use gb_core::input::{Button, Joypad, JOYP_ADDR};
use gb_core::mmu::Mmu;

fn setup() -> (Joypad, Mmu) {
    let joy = Joypad::new();
    let mut mmu = Mmu::new();
    // Default: neither group selected (bits 5–4 both high → no group)
    mmu.write_byte(JOYP_ADDR, 0xFF);
    (joy, mmu)
}

/// Select the action button group only (bit 5 low, bit 4 high).
fn select_action(mmu: &mut Mmu) {
    mmu.write_byte(JOYP_ADDR, 0xDF); // 1101_1111 — bit5=0, bit4=1
}

/// Select the d-pad group only (bit 4 low, bit 5 high).
fn select_dpad(mmu: &mut Mmu) {
    mmu.write_byte(JOYP_ADDR, 0xEF); // 1110_1111 — bit5=1, bit4=0
}

// ── Initial state ─────────────────────────────────────────────────────────

#[test]
fn test_initial_no_buttons_pressed() {
    let (joy, _) = setup();
    for btn in Button::ALL {
        assert!(!joy.is_pressed(btn), "{:?} must start released", btn);
    }
}

#[test]
fn test_initial_irq_pending_false() {
    let (joy, _) = setup();
    assert!(!joy.irq_pending);
}

// ── press / release ───────────────────────────────────────────────────────

#[test]
fn test_press_marks_button_as_pressed() {
    let (mut joy, _) = setup();
    joy.press(Button::A);
    assert!(joy.is_pressed(Button::A));
}

#[test]
fn test_release_clears_button() {
    let (mut joy, _) = setup();
    joy.press(Button::A);
    joy.release(Button::A);
    assert!(!joy.is_pressed(Button::A));
}

#[test]
fn test_press_sets_irq_pending() {
    let (mut joy, _) = setup();
    joy.press(Button::Start);
    assert!(joy.irq_pending);
}

#[test]
fn test_press_already_pressed_does_not_set_irq_again() {
    let (mut joy, _) = setup();
    joy.press(Button::B);
    joy.irq_pending = false; // clear manually
    joy.press(Button::B);   // already pressed
    assert!(!joy.irq_pending, "Holding a pressed button must not re-trigger IRQ");
}

#[test]
fn test_release_does_not_set_irq_pending() {
    let (mut joy, _) = setup();
    joy.press(Button::A);
    joy.irq_pending = false;
    joy.release(Button::A);
    assert!(!joy.irq_pending);
}

#[test]
fn test_multiple_buttons_pressed_independently() {
    let (mut joy, _) = setup();
    joy.press(Button::A);
    joy.press(Button::Up);
    joy.press(Button::Start);
    assert!(joy.is_pressed(Button::A));
    assert!(joy.is_pressed(Button::Up));
    assert!(joy.is_pressed(Button::Start));
    assert!(!joy.is_pressed(Button::B));
}

// ── read_joyp — action group ──────────────────────────────────────────────

#[test]
fn test_read_joyp_action_group_no_buttons_returns_0xcf() {
    let (joy, mut mmu) = setup();
    select_action(&mut mmu);
    let byte = joy.read_joyp(&mmu);
    // Bits 3–0 all high (nothing pressed), bit5=0 (selected), bit4=1, bits7-6=1
    assert_eq!(byte & 0x0F, 0x0F, "All action bits must be high when nothing pressed");
}

#[test]
fn test_read_joyp_action_a_pressed() {
    let (mut joy, mut mmu) = setup();
    select_action(&mut mmu);
    joy.press(Button::A);
    let byte = joy.read_joyp(&mmu);
    assert_eq!(byte & 0x01, 0, "Bit 0 must be low when A is pressed");
    assert_eq!(byte & 0x0E, 0x0E, "Other action bits must stay high");
}

#[test]
fn test_read_joyp_action_b_pressed() {
    let (mut joy, mut mmu) = setup();
    select_action(&mut mmu);
    joy.press(Button::B);
    let byte = joy.read_joyp(&mmu);
    assert_eq!(byte & 0x02, 0, "Bit 1 must be low when B is pressed");
}

#[test]
fn test_read_joyp_action_select_pressed() {
    let (mut joy, mut mmu) = setup();
    select_action(&mut mmu);
    joy.press(Button::Select);
    let byte = joy.read_joyp(&mmu);
    assert_eq!(byte & 0x04, 0, "Bit 2 must be low when Select is pressed");
}

#[test]
fn test_read_joyp_action_start_pressed() {
    let (mut joy, mut mmu) = setup();
    select_action(&mut mmu);
    joy.press(Button::Start);
    let byte = joy.read_joyp(&mmu);
    assert_eq!(byte & 0x08, 0, "Bit 3 must be low when Start is pressed");
}

#[test]
fn test_read_joyp_multiple_action_buttons_pressed() {
    let (mut joy, mut mmu) = setup();
    select_action(&mut mmu);
    joy.press(Button::A);
    joy.press(Button::Start);
    let byte = joy.read_joyp(&mmu);
    assert_eq!(byte & 0x01, 0, "A bit must be low");
    assert_eq!(byte & 0x08, 0, "Start bit must be low");
    assert_ne!(byte & 0x02, 0, "B bit must stay high");
    assert_ne!(byte & 0x04, 0, "Select bit must stay high");
}

// ── read_joyp — d-pad group ───────────────────────────────────────────────

#[test]
fn test_read_joyp_dpad_no_buttons_returns_high_nibble() {
    let (joy, mut mmu) = setup();
    select_dpad(&mut mmu);
    let byte = joy.read_joyp(&mmu);
    assert_eq!(byte & 0x0F, 0x0F);
}

#[test]
fn test_read_joyp_dpad_right_pressed() {
    let (mut joy, mut mmu) = setup();
    select_dpad(&mut mmu);
    joy.press(Button::Right);
    let byte = joy.read_joyp(&mmu);
    assert_eq!(byte & 0x01, 0, "Bit 0 must be low when Right is pressed");
}

#[test]
fn test_read_joyp_dpad_left_pressed() {
    let (mut joy, mut mmu) = setup();
    select_dpad(&mut mmu);
    joy.press(Button::Left);
    let byte = joy.read_joyp(&mmu);
    assert_eq!(byte & 0x02, 0, "Bit 1 must be low when Left is pressed");
}

#[test]
fn test_read_joyp_dpad_up_pressed() {
    let (mut joy, mut mmu) = setup();
    select_dpad(&mut mmu);
    joy.press(Button::Up);
    let byte = joy.read_joyp(&mmu);
    assert_eq!(byte & 0x04, 0, "Bit 2 must be low when Up is pressed");
}

#[test]
fn test_read_joyp_dpad_down_pressed() {
    let (mut joy, mut mmu) = setup();
    select_dpad(&mut mmu);
    joy.press(Button::Down);
    let byte = joy.read_joyp(&mmu);
    assert_eq!(byte & 0x08, 0, "Bit 3 must be low when Down is pressed");
}

// ── group isolation ───────────────────────────────────────────────────────

#[test]
fn test_action_button_not_visible_in_dpad_group() {
    let (mut joy, mut mmu) = setup();
    select_dpad(&mut mmu);
    joy.press(Button::A); // action button
    let byte = joy.read_joyp(&mmu);
    assert_eq!(byte & 0x01, 0x01, "A must not appear in d-pad group");
}

#[test]
fn test_dpad_button_not_visible_in_action_group() {
    let (mut joy, mut mmu) = setup();
    select_action(&mut mmu);
    joy.press(Button::Right); // d-pad button
    let byte = joy.read_joyp(&mmu);
    assert_eq!(byte & 0x01, 0x01, "Right must not appear in action group");
}

#[test]
fn test_no_group_selected_all_bits_high() {
    let (mut joy, mut mmu) = setup();
    // Both bits 5 and 4 high → neither group selected
    mmu.write_byte(JOYP_ADDR, 0xFF);
    joy.press(Button::A);
    joy.press(Button::Down);
    let byte = joy.read_joyp(&mmu);
    assert_eq!(byte & 0x0F, 0x0F, "No group selected → all bits high");
}

// ── release resets state ──────────────────────────────────────────────────

#[test]
fn test_release_restores_high_bit_in_register() {
    let (mut joy, mut mmu) = setup();
    select_action(&mut mmu);
    joy.press(Button::A);
    joy.release(Button::A);
    let byte = joy.read_joyp(&mmu);
    assert_eq!(byte & 0x01, 0x01, "Released button must read high again");
}

#[test]
fn test_release_one_button_does_not_affect_others() {
    let (mut joy, mut mmu) = setup();
    select_action(&mut mmu);
    joy.press(Button::A);
    joy.press(Button::B);
    joy.release(Button::A);
    let byte = joy.read_joyp(&mmu);
    assert_eq!(byte & 0x01, 0x01, "A must be released");
    assert_eq!(byte & 0x02, 0x00, "B must still be pressed");
}

// ── sync ──────────────────────────────────────────────────────────────────

#[test]
fn test_sync_updates_mmu_register() {
    let (mut joy, mut mmu) = setup();
    select_action(&mut mmu);
    joy.press(Button::A);
    joy.sync(&mut mmu);
    let byte = mmu.read_byte(JOYP_ADDR);
    assert_eq!(byte & 0x01, 0, "A must read low after sync");
}

#[test]
fn test_sync_returns_true_on_new_press() {
    let (mut joy, mut mmu) = setup();
    select_action(&mut mmu);
    // First sync with nothing pressed — establish baseline
    joy.sync(&mut mmu);
    joy.press(Button::B);
    let irq = joy.sync(&mut mmu);
    assert!(irq, "sync must return true when a new button was pressed");
}

#[test]
fn test_sync_returns_false_when_no_new_press() {
    let (mut joy, mut mmu) = setup();
    let irq = joy.sync(&mut mmu);
    assert!(!irq, "sync must return false when nothing changed");
}

#[test]
fn test_sync_returns_false_on_release() {
    let (mut joy, mut mmu) = setup();
    select_action(&mut mmu);
    joy.press(Button::A);
    joy.sync(&mut mmu);  // consume the press IRQ
    joy.release(Button::A);
    let irq = joy.sync(&mut mmu);
    assert!(!irq, "sync must not fire IRQ on release");
}

#[test]
fn test_sync_clears_irq_pending_after_call() {
    let (mut joy, mut mmu) = setup();
    joy.press(Button::Start);
    assert!(joy.irq_pending);
    joy.sync(&mut mmu);
    assert!(!joy.irq_pending, "irq_pending must clear after sync");
}

#[test]
fn test_sync_does_not_fire_irq_when_group_not_selected() {
    // Button is pressed but neither group is selected (bits 5–4 both high)
    // so the output bits don't change → no IRQ
    let (mut joy, mut mmu) = setup();
    mmu.write_byte(JOYP_ADDR, 0xFF); // no group selected
    joy.sync(&mut mmu);              // baseline
    joy.press(Button::A);
    let irq = joy.sync(&mut mmu);
    assert!(!irq, "No IRQ when group not selected (bit can't go 1→0)");
}

#[test]
fn write_joyp_shows_selected_buttons() {
    let mut j = Joypad::new();
    j.press(Button::A);
    let mut m = Mmu::new();
    j.write_joyp(&mut m, 0x10);
    assert_eq!(m.read_byte(JOYP_ADDR), 0xDE);
    assert_eq!(j.read_joyp(&m), 0xDE);
    // The d-pad group: A no longer reads, Up does.
    j.press(Button::Up);
    j.write_joyp(&mut m, 0x20);
    assert_eq!(m.read_byte(JOYP_ADDR), 0xEB);
    assert_eq!(j.read_joyp(&m), 0xEB);
}
