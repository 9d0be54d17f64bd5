use gb_core::cpu::interrupts::source;
use gb_core::dmg::cpu::Cpu;
use gb_core::dmg::interrupts::{IE_ADDR, IF_ADDR};
use gb_core::dmg::ppu;
use gb_core::dmg::timer::{TAC_ADDR, TIMA_ADDR, TMA_ADDR};
use gb_core::input::{Button, JOYP_ADDR};

fn cpu_with_program(program: &[u8]) -> Cpu {
    let mut cpu = Cpu::new();
    for (i, &byte) in program.iter().enumerate() {
        cpu.mmu.write_byte(0xC000 + i as u16, byte);
    }
    cpu.regs.pc = 0xC000;
    cpu
}

fn cpu_with_nop_rom() -> Cpu {
    let mut cpu = Cpu::new();
    cpu.mmu.load_rom(&vec![0x00u8; 0x8000]).unwrap();
    cpu
}

// ── Phase regressions ─────────────────────────────────────────────────────

#[test]
fn dmg_test_nop_still_works() {
    let mut cpu = cpu_with_program(&[0x00]);
    let start = cpu.regs.pc;
    cpu.tick();
    assert_eq!(cpu.regs.pc, start + 1);
}

#[test]
fn test_vblank_interrupt_still_works() {
    let mut cpu = cpu_with_program(&[0x00]);
    cpu.ime = true;
    cpu.mmu.write_byte(IE_ADDR, source::VBLANK);
    cpu.request_interrupt(source::VBLANK);
    cpu.tick();
    assert_eq!(cpu.regs.pc, 0x0040);
}

#[test]
fn test_timer_overflow_still_fires_irq() {
    let mut cpu = cpu_with_program(&[0x00u8; 16]);
    cpu.ime = true;
    cpu.mmu.write_byte(TAC_ADDR,  0x05);
    cpu.mmu.write_byte(TIMA_ADDR, 0xFF);
    cpu.mmu.write_byte(TMA_ADDR,  0x00);
    cpu.mmu.write_byte(IE_ADDR,   source::TIMER);
    for _ in 0..4 { cpu.tick(); }
    cpu.tick();
    assert_eq!(cpu.regs.pc, 0x0050);
}

#[test]
fn test_ppu_ly_advances_as_cpu_executes_nops() {
    let mut cpu = cpu_with_program(&[0x00u8; 128]);
    cpu.mmu.write_byte(ppu::LCDC_ADDR, 0x91);
    for _ in 0..114 { cpu.tick(); }
    assert_eq!(cpu.mmu.read_byte(ppu::LY_ADDR), 1);
}

#[test]
fn test_ppu_vblank_irq_triggers_cpu_handler() {
    let mut cpu = Cpu::new();
    let mut rom = vec![0x00u8; 0x8000];
    rom[0x0040] = 0xC9;
    cpu.mmu.load_rom(&rom).unwrap();
    cpu.mmu.write_byte(ppu::LCDC_ADDR, 0x91);
    cpu.mmu.write_byte(IE_ADDR, source::VBLANK);
    cpu.ime = true;
    let mut jumped = false;
    for _ in 0..20_000 {
        cpu.tick();
        if cpu.regs.pc == 0x0040 { jumped = true; break; }
    }
    assert!(jumped);
}

// ── Input integration ─────────────────────────────────────────────────────

#[test]
fn test_button_press_updates_joyp_register_after_tick() {
    let mut cpu = cpu_with_program(&[0x00u8; 4]);
    cpu.mmu.write_byte(JOYP_ADDR, 0xDF); // action group only (bit5=0, bit4=1)
    cpu.button_press(Button::A);
    cpu.tick();
    let joyp = cpu.mmu.read_byte(JOYP_ADDR);
    assert_eq!(joyp & 0x01, 0, "A button must read low (pressed) after tick");
}

#[test]
fn test_button_release_restores_joyp_bit_after_tick() {
    let mut cpu = cpu_with_program(&[0x00u8; 4]);
    cpu.mmu.write_byte(JOYP_ADDR, 0xDF); // action group only
    cpu.button_press(Button::A);
    cpu.tick();
    cpu.button_release(Button::A);
    cpu.tick();
    let joyp = cpu.mmu.read_byte(JOYP_ADDR);
    assert_eq!(joyp & 0x01, 0x01, "Released A must read high again");
}

#[test]
fn test_joypad_interrupt_fires_on_button_press() {
    let mut cpu = cpu_with_program(&[0x00u8; 8]);
    cpu.ime = true;
    cpu.mmu.write_byte(IE_ADDR,   source::JOYPAD);
    cpu.mmu.write_byte(JOYP_ADDR, 0xDF); // action group only
    cpu.tick();                // baseline sync
    cpu.button_press(Button::Start);
    cpu.tick();                // joypad sync → IF bit set
    cpu.tick();                // IRQ serviced → PC = 0x0060
    assert_eq!(cpu.regs.pc, 0x0060, "CPU must jump to Joypad vector 0x0060");
}

#[test]
fn test_joypad_irq_not_fired_on_release() {
    let mut cpu = cpu_with_program(&[0x00u8; 8]);
    cpu.ime = true;
    cpu.mmu.write_byte(IE_ADDR,   source::JOYPAD);
    cpu.mmu.write_byte(JOYP_ADDR, 0xDF); // action group only
    cpu.button_press(Button::A);
    cpu.tick(); // press fires IRQ
    cpu.tick(); // service IRQ
    cpu.regs.pc = 0xC000;
    cpu.mmu.write_byte(IF_ADDR, 0x00);
    cpu.button_release(Button::A);
    cpu.tick();
    cpu.tick();
    assert_ne!(cpu.regs.pc, 0x0060, "Release must not fire Joypad IRQ");
}

#[test]
fn test_dpad_buttons_readable_via_joyp() {
    let mut cpu = cpu_with_program(&[0x00u8; 4]);
    cpu.mmu.write_byte(JOYP_ADDR, 0xEF); // d-pad group only (bit5=1, bit4=0)
    cpu.button_press(Button::Up);
    cpu.tick();
    let joyp = cpu.mmu.read_byte(JOYP_ADDR);
    assert_eq!(joyp & 0x04, 0, "Up must read low in d-pad group");
}

#[test]
fn test_action_buttons_not_visible_in_dpad_group() {
    let mut cpu = cpu_with_program(&[0x00u8; 4]);
    cpu.mmu.write_byte(JOYP_ADDR, 0xEF); // d-pad group only
    cpu.button_press(Button::A);          // action button — must not appear
    cpu.tick();
    let joyp = cpu.mmu.read_byte(JOYP_ADDR);
    assert_eq!(joyp & 0x01, 0x01, "Action A must not appear in d-pad group");
}

#[test]
fn test_all_buttons_independently_controllable() {
    let mut cpu = cpu_with_program(&[0x00u8; 4]);
    for btn in Button::ALL {
        cpu.button_press(btn);
    }
    cpu.tick();
    for btn in Button::ALL {
        assert!(cpu.joypad.is_pressed(btn), "{:?} must be pressed", btn);
    }
    for btn in Button::ALL {
        cpu.button_release(btn);
    }
    cpu.tick();
    for btn in Button::ALL {
        assert!(!cpu.joypad.is_pressed(btn), "{:?} must be released", btn);
    }
}

#[test]
fn dmg_arithmetic_program() {
    // LD A,5; LD B,3; ADD A,B; LD C,A
    let mut cpu = cpu_with_program(&[0x3E, 0x05, 0x06, 0x03, 0x80, 0x4F]);
    let mut cycles = 0;
    for _ in 0..4 {
        cycles += cpu.tick();
    }
    assert_eq!(cpu.regs.a, 8);
    assert_eq!(cpu.regs.c, 8);
    assert_eq!(cycles, 8 + 8 + 4 + 4);
}

#[test]
fn dmg_call_and_ret_return_after_the_call() {
    // 0xC000: CALL 0xC010; 0xC003: NOP ... 0xC010: RET
    let mut program = vec![0x00u8; 0x20];
    program[0] = 0xCD;
    program[1] = 0x10;
    program[2] = 0xC0;
    program[0x10] = 0xC9;
    let mut cpu = cpu_with_program(&program);
    cpu.regs.sp = 0xFFFE;
    assert_eq!(cpu.tick(), 24);
    assert_eq!(cpu.regs.pc, 0xC010);
    assert_eq!(cpu.regs.sp, 0xFFFC);
    assert_eq!(cpu.tick(), 16);
    assert_eq!(cpu.regs.pc, 0xC003);
    assert_eq!(cpu.regs.sp, 0xFFFE);
}

#[test]
fn dmg_unsupported_opcode_takes_four_cycles() {
    // LD (HL),n is outside the DMG core's instruction subset.
    let mut cpu = cpu_with_program(&[0x36, 0x42]);
    let before = cpu.regs;
    assert_eq!(cpu.tick(), 4);
    assert_eq!(cpu.regs.pc, before.pc + 1);
    assert_eq!(cpu.regs.a, before.a);
    assert_eq!(cpu.regs.h, before.h);
}

#[test]
fn dmg_pop_af_clears_low_flag_bits() {
    // LD BC,0x12FF; PUSH BC; POP AF
    let mut cpu = cpu_with_program(&[0x01, 0xFF, 0x12, 0xC5, 0xF1]);
    cpu.regs.sp = 0xFFFE;
    for _ in 0..3 {
        cpu.tick();
    }
    assert_eq!(cpu.regs.a, 0x12);
    assert_eq!(cpu.regs.f, 0xF0);
}
