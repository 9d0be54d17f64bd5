use gb_core::cpu::interrupts::{source, IE_ADDR};
use gb_core::cpu::Cpu;
use gb_core::input::{Button, JOYP_ADDR};
use gb_core::ppu::{self, LCDC_ADDR};
use gb_core::serial::{SB_ADDR, SC_ADDR};
use gb_core::timer::{TAC_ADDR, TIMA_ADDR, TMA_ADDR};

fn cpu_with_program(program: &[u8]) -> Cpu {
    let mut cpu = Cpu::new();
    for (i, &byte) in program.iter().enumerate() {
        cpu.mmu.write_byte(0xC000 + i as u16, byte);
    }
    cpu.regs.pc = 0xC000;
    cpu
}

fn cpu_with_nop_rom() -> Cpu {
    let mut cpu = Cpu::new();
    cpu.mmu.load_rom(&vec![0x00u8; 0x8000]).unwrap();
    cpu
}

#[test]
fn mod_test_nop_still_works() {
    let mut cpu = cpu_with_program(&[0x00]);
    let start = cpu.regs.pc;
    cpu.tick();
    assert_eq!(cpu.regs.pc, start + 1);
}

#[test]
fn test_vblank_interrupt() {
    let mut cpu = cpu_with_program(&[0x00]);
    cpu.ime = true;
    cpu.mmu.write_byte(IE_ADDR, source::VBLANK);
    cpu.request_interrupt(source::VBLANK);
    cpu.tick();
    assert_eq!(cpu.regs.pc, 0x0040);
}

#[test]
fn test_timer_irq() {
    let mut cpu = cpu_with_program(&[0x00u8; 16]);
    cpu.ime = true;
    cpu.mmu.write_byte(TAC_ADDR, 0x05);
    cpu.mmu.write_byte(TIMA_ADDR, 0xFF);
    cpu.mmu.write_byte(TMA_ADDR, 0x00);
    cpu.mmu.write_byte(IE_ADDR, source::TIMER);
    for _ in 0..5 { cpu.tick(); }
    assert_eq!(cpu.regs.pc, 0x0050);
}

#[test]
fn test_ppu_ly_advances() {
    let mut cpu = cpu_with_program(&[0x00u8; 128]);
    cpu.mmu.write_byte(LCDC_ADDR, 0x91);
    for _ in 0..114 { cpu.tick(); }
    assert_eq!(cpu.mmu.read_byte(ppu::LY_ADDR), 1);
}

#[test]
fn test_button_press() {
    let mut cpu = cpu_with_program(&[0x00u8; 4]);
    cpu.mmu.write_byte(JOYP_ADDR, 0xDF);
    cpu.button_press(Button::A);
    cpu.tick();
    assert_eq!(cpu.mmu.read_byte(JOYP_ADDR) & 0x01, 0);
}

#[test]
fn test_serial_captures_byte() {
    let mut cpu = cpu_with_program(&[0x00u8; 4]);
    cpu.mmu.write_byte(SB_ADDR, b'A');
    cpu.mmu.write_byte(SC_ADDR, 0x81);
    cpu.tick();
    assert!(cpu.serial.output.contains(&b'A'));
}

#[test]
fn test_double_speed_halves_peripheral_cycles() {
    let mut cpu1 = cpu_with_nop_rom();
    cpu1.mmu.write_byte(LCDC_ADDR, 0x91);
    let mut cpu2 = cpu_with_nop_rom();
    cpu2.mmu.write_byte(LCDC_ADDR, 0x91);
    cpu2.mmu.double_speed = true;

    // Run same number of CPU ticks
    for _ in 0..100 { cpu1.tick(); cpu2.tick(); }

    // cpu2 in double speed — PPU advances slower, LY should be lower
    let ly1 = cpu1.mmu.read_byte(ppu::LY_ADDR);
    let ly2 = cpu2.mmu.read_byte(ppu::LY_ADDR);
    assert!(ly1 >= ly2, "double speed PPU must advance slower: ly1={} ly2={}", ly1, ly2);
}

