use gb_core::cpu::interrupts::source;
use gb_core::dmg::interrupts::{acknowledge, pending, request, service, IE_ADDR, IF_ADDR};
use gb_core::dmg::mmu::Mmu;

fn mmu_with_ie(ie: u8) -> Mmu {
    let mut mmu = Mmu::new();
    mmu.write_byte(IE_ADDR, ie);
    mmu
}

// ── request / acknowledge ────────────────────────────────────────────────

#[test]
fn test_request_sets_if_bit() {
    let mut mmu = Mmu::new();
    request(&mut mmu, source::VBLANK);
    assert_eq!(mmu.read_byte(IF_ADDR) & source::VBLANK, source::VBLANK);
}

#[test]
fn test_request_does_not_clear_other_bits() {
    let mut mmu = Mmu::new();
    mmu.write_byte(IF_ADDR, source::TIMER);
    request(&mut mmu, source::VBLANK);
    let if_ = mmu.read_byte(IF_ADDR);
    assert_ne!(if_ & source::TIMER, 0, "TIMER bit must remain set");
    assert_ne!(if_ & source::VBLANK, 0, "VBLANK bit must now be set");
}

#[test]
fn test_acknowledge_clears_if_bit() {
    let mut mmu = Mmu::new();
    mmu.write_byte(IF_ADDR, source::VBLANK | source::TIMER);
    acknowledge(&mut mmu, source::VBLANK);
    let if_ = mmu.read_byte(IF_ADDR);
    assert_eq!(if_ & source::VBLANK, 0, "VBLANK bit should be cleared");
    assert_ne!(if_ & source::TIMER, 0, "TIMER bit must remain set");
}

// ── pending ──────────────────────────────────────────────────────────────

#[test]
fn test_pending_zero_when_nothing_requested() {
    let mmu = mmu_with_ie(0xFF); // all enabled, none requested
    assert_eq!(pending(&mmu), 0);
}

#[test]
fn test_pending_zero_when_nothing_enabled() {
    let mut mmu = Mmu::new();
    mmu.write_byte(IE_ADDR, 0x00); // nothing enabled
    request(&mut mmu, source::VBLANK);
    assert_eq!(pending(&mmu), 0);
}

#[test]
fn test_pending_nonzero_when_enabled_and_requested() {
    let mut mmu = mmu_with_ie(source::VBLANK);
    request(&mut mmu, source::VBLANK);
    assert_ne!(pending(&mmu), 0);
}

#[test]
fn test_pending_masks_to_5_bits() {
    let mut mmu = Mmu::new();
    mmu.write_byte(IE_ADDR, 0xFF);
    mmu.write_byte(IF_ADDR, 0xFF);
    assert_eq!(pending(&mmu), 0x1F, "Only 5 interrupt bits are valid");
}

// ── service — IME disabled ───────────────────────────────────────────────

#[test]
fn test_service_does_nothing_when_ime_false() {
    let mut mmu = mmu_with_ie(source::VBLANK);
    request(&mut mmu, source::VBLANK);
    let mut ime    = false;
    let mut halted = false;
    let mut pc     = 0x0200u16;
    let mut sp     = 0xFFFEu16;
    let cycles = service(&mut mmu, &mut ime, &mut halted, &mut pc, &mut sp);
    assert_eq!(cycles, 0);
    assert_eq!(pc, 0x0200, "PC must not change");
    assert!(!ime, "IME must stay false");
}

#[test]
fn test_service_wakes_halt_even_when_ime_false() {
    let mut mmu = mmu_with_ie(source::TIMER);
    request(&mut mmu, source::TIMER);
    let mut ime    = false;
    let mut halted = true;
    let mut pc     = 0x0200u16;
    let mut sp     = 0xFFFEu16;
    service(&mut mmu, &mut ime, &mut halted, &mut pc, &mut sp);
    assert!(!halted, "HALT must clear even if IME is false");
}

// ── service — IME enabled ────────────────────────────────────────────────

#[test]
fn test_service_vblank_jumps_to_0040() {
    let mut mmu = mmu_with_ie(source::VBLANK);
    request(&mut mmu, source::VBLANK);
    let mut ime    = true;
    let mut halted = false;
    let mut pc     = 0x0200u16;
    let mut sp     = 0xFFFEu16;
    let cycles = service(&mut mmu, &mut ime, &mut halted, &mut pc, &mut sp);
    assert_eq!(pc, 0x0040, "VBlank vector is 0x0040");
    assert_eq!(cycles, 20);
}

#[test]
fn test_service_clears_ime() {
    let mut mmu = mmu_with_ie(source::VBLANK);
    request(&mut mmu, source::VBLANK);
    let mut ime    = true;
    let mut halted = false;
    let mut pc     = 0x0200u16;
    let mut sp     = 0xFFFEu16;
    service(&mut mmu, &mut ime, &mut halted, &mut pc, &mut sp);
    assert!(!ime, "IME must be cleared after servicing");
}

#[test]
fn test_service_pushes_return_address_onto_stack() {
    let mut mmu = mmu_with_ie(source::VBLANK);
    request(&mut mmu, source::VBLANK);
    let mut ime    = true;
    let mut halted = false;
    let mut pc     = 0x1234u16;
    let mut sp     = 0xFFFEu16;
    service(&mut mmu, &mut ime, &mut halted, &mut pc, &mut sp);
    assert_eq!(sp, 0xFFFC, "SP should decrement by 2");
    let ret = mmu.read_word(sp);
    assert_eq!(ret, 0x1234, "Return address on stack must be old PC");
}

#[test]
fn test_service_acknowledges_if_bit() {
    let mut mmu = mmu_with_ie(source::VBLANK);
    request(&mut mmu, source::VBLANK);
    let mut ime    = true;
    let mut halted = false;
    let mut pc     = 0x0200u16;
    let mut sp     = 0xFFFEu16;
    service(&mut mmu, &mut ime, &mut halted, &mut pc, &mut sp);
    assert_eq!(mmu.read_byte(IF_ADDR) & source::VBLANK, 0, "IF bit must be cleared");
}

#[test]
fn test_service_timer_jumps_to_0050() {
    let mut mmu = mmu_with_ie(source::TIMER);
    request(&mut mmu, source::TIMER);
    let mut ime    = true;
    let mut halted = false;
    let mut pc     = 0x0300u16;
    let mut sp     = 0xFFFEu16;
    service(&mut mmu, &mut ime, &mut halted, &mut pc, &mut sp);
    assert_eq!(pc, 0x0050);
}

#[test]
fn test_service_lcd_stat_jumps_to_0048() {
    let mut mmu = mmu_with_ie(source::LCD_STAT);
    request(&mut mmu, source::LCD_STAT);
    let mut ime    = true;
    let mut halted = false;
    let mut pc     = 0x0300u16;
    let mut sp     = 0xFFFEu16;
    service(&mut mmu, &mut ime, &mut halted, &mut pc, &mut sp);
    assert_eq!(pc, 0x0048);
}

#[test]
fn test_service_joypad_jumps_to_0060() {
    let mut mmu = mmu_with_ie(source::JOYPAD);
    request(&mut mmu, source::JOYPAD);
    let mut ime    = true;
    let mut halted = false;
    let mut pc     = 0x0300u16;
    let mut sp     = 0xFFFEu16;
    service(&mut mmu, &mut ime, &mut halted, &mut pc, &mut sp);
    assert_eq!(pc, 0x0060);
}

// ── priority ─────────────────────────────────────────────────────────────

#[test]
fn test_vblank_takes_priority_over_timer() {
    let mut mmu = mmu_with_ie(source::VBLANK | source::TIMER);
    request(&mut mmu, source::VBLANK);
    request(&mut mmu, source::TIMER);
    let mut ime    = true;
    let mut halted = false;
    let mut pc     = 0x0200u16;
    let mut sp     = 0xFFFEu16;
    service(&mut mmu, &mut ime, &mut halted, &mut pc, &mut sp);
    assert_eq!(pc, 0x0040, "VBlank (bit 0) must win over Timer (bit 2)");
}

#[test]
fn test_only_highest_priority_interrupt_serviced_per_call() {
    let mut mmu = mmu_with_ie(source::VBLANK | source::TIMER);
    request(&mut mmu, source::VBLANK);
    request(&mut mmu, source::TIMER);
    let mut ime    = true;
    let mut halted = false;
    let mut pc     = 0x0200u16;
    let mut sp     = 0xFFFEu16;
    service(&mut mmu, &mut ime, &mut halted, &mut pc, &mut sp);
    // TIMER bit must still be set in IF after one service call
    assert_ne!(
        mmu.read_byte(IF_ADDR) & source::TIMER, 0,
        "TIMER must remain pending after VBlank is serviced"
    );
}

// ── HALT wake ────────────────────────────────────────────────────────────

#[test]
fn test_halt_not_cleared_when_nothing_pending() {
    let mut mmu = Mmu::new(); // IE = 0, IF = 0
    let mut ime    = true;
    let mut halted = true;
    let mut pc     = 0x0200u16;
    let mut sp     = 0xFFFEu16;
    service(&mut mmu, &mut ime, &mut halted, &mut pc, &mut sp);
    assert!(halted, "HALT must NOT clear when nothing is pending");
}

#[test]
fn test_service_costs_20_cycles_when_fired() {
    let mut mmu = mmu_with_ie(source::VBLANK);
    request(&mut mmu, source::VBLANK);
    let mut ime    = true;
    let mut halted = false;
    let mut pc     = 0x0200u16;
    let mut sp     = 0xFFFEu16;
    let t = service(&mut mmu, &mut ime, &mut halted, &mut pc, &mut sp);
    assert_eq!(t, 20);
}

#[test]
fn test_service_costs_0_cycles_when_nothing_pending() {
    let mut mmu = Mmu::new();
    let mut ime    = true;
    let mut halted = false;
    let mut pc     = 0x0200u16;
    let mut sp     = 0xFFFEu16;
    let t = service(&mut mmu, &mut ime, &mut halted, &mut pc, &mut sp);
    assert_eq!(t, 0);
}
