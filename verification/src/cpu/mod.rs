//! The SM83 CPU and the machine around it: registers, memory, timer, PPU,
//! joypad, audio unit and serial port, advanced one instruction (or one
//! interrupt dispatch) at a time.

pub mod alu;
pub mod instructions;
pub mod interrupts;
pub mod registers;

pub use registers::Registers;

use crate::apu::{apu_step_spec, power_on_apu, Apu, ApuView};
use crate::input::{sync_spec, Button, Joypad, JoypadView};
use crate::mmu::{lemma_plain_io, power_on_mmu, Mmu, MmuView};
use crate::ppu::palettes::grey;
use crate::ppu::{power_on_ppu, ppu_step, step_defined, Ppu, PpuView};
use crate::serial::{Serial, SB_ADDR, SC_ADDR};
use crate::timer::{timer_step, Timer, TimerView};
use instructions::{step_spec, CpuState};
use interrupts::{request_spec, service_spec};
use vstd::prelude::*;

verus! {

pub struct Cpu {
    pub regs: Registers,
    pub mmu: Mmu,
    pub timer: Timer,
    pub ppu: Ppu,
    pub joypad: Joypad,
    pub apu: Apu,
    pub serial: Serial,
    /// T-cycles run so far.
    pub cycles: u64,
    pub ime: bool,
    pub halted: bool,
}

/// The whole machine's state.
pub struct MachineView {
    pub core: CpuState,
    pub timer: TimerView,
    pub ppu: PpuView,
    pub joypad: JoypadView,
    pub apu: ApuView,
    pub serial: Seq<u8>,
    pub cycles: u64,
}

/// A serial transfer: with SC bits 7 and 0 set, SB is sent and SC bit 7
/// cleared.
pub open spec fn serial_sync(out: Seq<u8>, m: MmuView) -> (Seq<u8>, MmuView) {
    let sc = m.io[0x02];
    if sc & 0x81 == 0x81 {
        (out.push(m.io[0x01]), MmuView { io: m.io.update(0x02, sc & !0x80u8), ..m })
    } else {
        (out, m)
    }
}

/// The memory as the PPU finds it, and the T-cycles the devices run for, in
/// a peripheral step of `cycles` CPU T-cycles: after the cartridge clock,
/// the serial port and the timer (with its interrupt request).
pub open spec fn before_ppu(mv: MachineView, cycles: u32) -> (MmuView, u32, Seq<u8>, TimerView) {
    let m0 = mv.core.mem.tick_rtc(cycles as u64);
    let (ser, m1) = serial_sync(mv.serial, m0);
    let pc: u32 = if m1.double_speed { cycles / 2 } else { cycles };
    let (t, m2, timer_irq) = timer_step(mv.timer, m1, pc);
    let m3 = if timer_irq { request_spec(m2, interrupts::source::TIMER) } else { m2 };
    (m3, pc, ser, t)
}

/// The PPU (and H-Blank DMA), joypad and audio unit run for `pc` T-cycles
/// on the machine's memory, requesting their interrupts.
pub open spec fn devices_after_timer(mv: MachineView, pc: u32) -> MachineView {
    let m3 = mv.core.mem;
    let (p, m4, r) = ppu_step(mv.ppu, m3, pc);
    let m5 = if r.vblank_irq { request_spec(m4, interrupts::source::VBLANK) } else { m4 };
    let m6 = if r.stat_irq { request_spec(m5, interrupts::source::LCD_STAT) } else { m5 };
    let m7 = if r.hblank { m6.hdma_hblank_step() } else { m6 };
    let (j, m8, joy_irq) = sync_spec(mv.joypad, m7);
    let m9 = if joy_irq { request_spec(m8, interrupts::source::JOYPAD) } else { m8 };
    let (a, m10) = apu_step_spec(mv.apu, m9, pc);
    MachineView { core: CpuState { mem: m10, ..mv.core }, ppu: p, joypad: j, apu: a, ..mv }
}

/// The machine after the cartridge clock, serial port and timer.
pub open spec fn after_timer(mv: MachineView, cycles: u32) -> MachineView {
    let (m3, pc, ser, t) = before_ppu(mv, cycles);
    MachineView { core: CpuState { mem: m3, ..mv.core }, serial: ser, timer: t, ..mv }
}

/// The devices run for a CPU step of `cycles` T-cycles (half as many in
/// double-speed mode), requesting their interrupts: cartridge clock, serial
/// port, timer, PPU (and H-Blank DMA), joypad, audio.
pub open spec fn peripherals_spec(mv: MachineView, cycles: u32) -> MachineView {
    devices_after_timer(after_timer(mv, cycles), before_ppu(mv, cycles).1)
}

/// The devices' counters cannot overflow in this step.
pub open spec fn peripherals_defined(mv: MachineView, cycles: u32) -> bool {
    let (m3, pc, ser, t) = before_ppu(mv, cycles);
    &&& step_defined(mv.ppu, m3, pc)
    &&& mv.apu.seq_counter + pc <= u32::MAX
}

/// The CPU part of a tick: an interrupt dispatch, or else (after a pending
/// speed switch ends a HALT) one instruction, or 4 idle T-cycles in HALT.
pub open spec fn tick_core(s: CpuState) -> (CpuState, u32) {
    let (m1, ime1, h1, pc1, sp1, irq) = service_spec(s.mem, s.ime, s.halted, s.regs.pc, s.regs.sp);
    let s1 = CpuState { regs: Registers { pc: pc1, sp: sp1, ..s.regs }, mem: m1, ime: ime1, halted: h1 };
    if irq > 0 {
        (s1, irq)
    } else {
        let s2 = if s1.mem.prepare_speed_switch && s1.halted {
            CpuState { mem: s1.mem.speed_switch(), halted: false, ..s1 }
        } else {
            s1
        };
        if s2.halted {
            (s2, 4)
        } else {
            step_spec(s2)
        }
    }
}

/// One `Cpu::tick`: the CPU part, the cycle counter, then the devices.
#[verifier::opaque]
pub open spec fn tick_spec(mv: MachineView) -> (MachineView, u32) {
    let (s, n) = tick_core(mv.core);
    (peripherals_spec(MachineView { core: s, cycles: (mv.cycles + n) as u64, ..mv }, n), n)
}

/// The tick cannot overflow a counter.
#[verifier::opaque]
pub open spec fn tick_defined(mv: MachineView) -> bool {
    let (s, n) = tick_core(mv.core);
    &&& mv.cycles + n <= u64::MAX
    &&& peripherals_defined(MachineView { core: s, cycles: (mv.cycles + n) as u64, ..mv }, n)
}

/// The machine at power-on: the boot registers, fresh memory and devices,
/// no output, no cycles run, interrupts disabled, not halted.
pub open spec fn power_on() -> MachineView {
    MachineView {
        core: CpuState { regs: Registers::new_spec(), mem: power_on_mmu(), ime: false, halted: false },
        timer: TimerView { div_counter: 0, tima_counter: 0 },
        ppu: power_on_ppu(),
        joypad: JoypadView { pressed: Seq::new(8, |i: int| false), irq_pending: false },
        apu: power_on_apu(),
        serial: Seq::empty(),
        cycles: 0,
    }
}

/// Every tick advances the cycle counter: an interrupt dispatch takes 20
/// T-cycles, HALT 4, and every instruction at least 4.
pub proof fn lemma_tick_advances(mv: MachineView)
    requires
        tick_defined(mv),
    ensures
        tick_core(mv.core).1 >= 4,
        tick_spec(mv).0.cycles == mv.cycles + tick_core(mv.core).1,
{
    reveal(tick_spec);
    reveal(tick_defined);
    let s = mv.core;
    let (m1, ime1, h1, pc1, sp1, irq) = service_spec(s.mem, s.ime, s.halted, s.regs.pc, s.regs.sp);
    let s1 = CpuState { regs: Registers { pc: pc1, sp: sp1, ..s.regs }, mem: m1, ime: ime1, halted: h1 };
    let s2 = if s1.mem.prepare_speed_switch && s1.halted {
        CpuState { mem: s1.mem.speed_switch(), halted: false, ..s1 }
    } else {
        s1
    };
    instructions::lemma_step_cycles(s2);
}

impl Cpu {
    /// The machine's state.
    pub open spec fn machine(&self) -> MachineView {
        MachineView {
            core: self.state(),
            timer: self.timer@,
            ppu: self.ppu@,
            joypad: self.joypad@,
            apu: self.apu@,
            serial: self.serial.output@,
            cycles: self.cycles,
        }
    }

    /// Every part keeps its invariant.
    pub open spec fn wf(&self) -> bool {
        &&& self.mmu.wf()
        &&& self.ppu.wf()
        &&& self.joypad.wf()
        &&& self.apu.wf()
    }

    /// Power-on: boot register values, fresh memory and devices, no cycles
    /// run, interrupts disabled, not halted.
    pub fn new() -> (r: Self)
        ensures
            r.wf(),
            r.machine() == power_on(),
            r.regs == Registers::new_spec(),
            r.cycles == 0,
            !r.ime,
            !r.halted,
            r.mmu@.cart is None && !r.mmu@.cgb_mode,
            r.mmu@.bg_palette.ram == Seq::new(64, |i: int| 0xFFu8),
            r.mmu@.obj_palette.ram == Seq::new(64, |i: int| 0xFFu8),
            !r.ppu@.cgb_mode && !r.ppu@.frame_ready && !r.ppu@.force_dmg_palette,
            r.ppu@.dmg.bg@ == grey()@ && r.ppu@.dmg.obj0@ == grey()@ && r.ppu@.dmg.obj1@ == grey()@,
            r.serial.output@ == Seq::<u8>::empty(),
    {
        Cpu {
            regs: Registers::new(),
            mmu: Mmu::new(),
            timer: Timer::new(),
            ppu: Ppu::new(),
            joypad: Joypad::new(),
            apu: Apu::new(),
            serial: Serial::new(),
            cycles: 0,
            ime: false,
            halted: false,
        }
    }

    /// Run one interrupt dispatch or one instruction (4 idle T-cycles while
    /// halted), then the devices for as long; returns the T-cycles taken.
    pub fn tick(&mut self) -> (r: u32)
        requires
            old(self).wf(),
            tick_defined(old(self).machine()),
        ensures
            final(self).wf(),
            (final(self).machine(), r) == tick_spec(old(self).machine()),
    {
        proof {
            reveal(tick_spec);
            reveal(tick_defined);
        }
        let instr_cycles = self.tick_cpu();
        self.cycles = self.cycles + instr_cycles as u64;
        self.step_peripherals(instr_cycles);
        instr_cycles
    }

    /// `tick`, on any machine: `None` where a tick would overflow one of
    /// the machine's counters (the machine is then left part-way).
    pub fn try_tick(&mut self) -> (r: Option<u32>)
        requires
            old(self).wf(),
        ensures
            final(self).wf(),
            tick_defined(old(self).machine()) ==> r == Some(tick_spec(old(self).machine()).1) && final(self).machine()
                == tick_spec(old(self).machine()).0,
            !tick_defined(old(self).machine()) ==> r is None,
    {
        proof {
            reveal(tick_spec);
            reveal(tick_defined);
        }
        let instr_cycles = self.tick_cpu();
        if self.cycles > u64::MAX - instr_cycles as u64 {
            return None;
        }
        self.cycles = self.cycles + instr_cycles as u64;
        let pc = self.run_before_ppu(instr_cycles);
        if !self.ppu.step_is_defined(pc, &self.mmu) || !self.apu.step_is_defined(pc) {
            return None;
        }
        self.run_devices(pc);
        Some(instr_cycles)
    }

    /// The CPU part of a tick: an interrupt dispatch, or (after a pending
    /// speed switch ends a HALT) one instruction or 4 idle T-cycles.
    fn tick_cpu(&mut self) -> (n: u32)
        requires
            old(self).wf(),
        ensures
            final(self).wf(),
            final(self).same_devices(old(self)),
            (final(self).state(), n) == tick_core(old(self).state()),
    {
        let irq_cycles = interrupts::service(
            &mut self.mmu,
            &mut self.ime,
            &mut self.halted,
            &mut self.regs.pc,
            &mut self.regs.sp,
        );
        if irq_cycles > 0 {
            return irq_cycles;
        }
        if self.mmu.speed_switch_armed() && self.halted {
            self.mmu.execute_speed_switch();
            self.halted = false;
        }
        if self.halted {
            4
        } else {
            self.step()
        }
    }

    /// Run the devices for a CPU step of `cycles` T-cycles.
    fn step_peripherals(&mut self, cycles: u32)
        requires
            old(self).wf(),
            peripherals_defined(old(self).machine(), cycles),
        ensures
            final(self).wf(),
            final(self).machine() == peripherals_spec(old(self).machine(), cycles),
    {
        let pc = self.run_before_ppu(cycles);
        self.run_devices(pc);
    }

    /// Cartridge clock, serial port and timer; returns the T-cycles the
    /// devices run for (half of `cycles` in double-speed mode).
    fn run_before_ppu(&mut self, cycles: u32) -> (pc: u32)
        requires
            old(self).wf(),
        ensures
            final(self).wf(),
            final(self).machine() == after_timer(old(self).machine(), cycles),
            pc == before_ppu(old(self).machine(), cycles).1,
    {
        self.mmu.tick_cartridge_rtc(cycles as u64);
        proof {
            lemma_plain_io(self.mmu@, SC_ADDR);
            lemma_plain_io(self.mmu@, SB_ADDR);
        }
        let sc = self.mmu.read_byte(SC_ADDR);
        if sc & 0x81 == 0x81 {
            let sb = self.mmu.read_byte(SB_ADDR);
            self.serial.on_sc_write(sb, sc);
            self.mmu.write_byte(SC_ADDR, sc & !0x80);
        }
        let peripheral_cycles = if self.mmu.is_double_speed() { cycles >> 1 } else { cycles };
        proof {
            crate::bits::lemma_u32(cycles);
        }
        if self.timer.step(peripheral_cycles, &mut self.mmu) {
            interrupts::request(&mut self.mmu, interrupts::source::TIMER);
        }
        peripheral_cycles
    }

    /// PPU (and H-Blank DMA), joypad and audio unit for `pc` T-cycles.
    fn run_devices(&mut self, pc: u32)
        requires
            old(self).wf(),
            step_defined(old(self).ppu@, old(self).mmu@, pc),
            old(self).apu@.seq_counter + pc <= u32::MAX,
        ensures
            final(self).wf(),
            final(self).machine() == devices_after_timer(old(self).machine(), pc),
    {
        let ppu_result = self.ppu.step(pc, &mut self.mmu);
        if ppu_result.vblank_irq {
            interrupts::request(&mut self.mmu, interrupts::source::VBLANK);
        }
        if ppu_result.stat_irq {
            interrupts::request(&mut self.mmu, interrupts::source::LCD_STAT);
        }
        if ppu_result.hblank {
            self.mmu.hdma_hblank_step();
        }
        if self.joypad.sync(&mut self.mmu) {
            interrupts::request(&mut self.mmu, interrupts::source::JOYPAD);
        }
        self.apu.step(pc, &mut self.mmu);
    }

    /// Press a joypad button.
    pub fn button_press(&mut self, button: Button)
        requires
            old(self).wf(),
        ensures
            final(self).wf(),
            final(self).joypad@.pressed == old(self).joypad@.pressed.update(button.index_spec(), true),
            final(self).joypad@.irq_pending == (old(self).joypad@.irq_pending || !old(self).joypad@.pressed[button.index_spec()]),
            final(self).machine() == (MachineView { joypad: final(self).joypad@, ..old(self).machine() }),
    {
        self.joypad.press(button);
    }

    /// Release a joypad button.
    pub fn button_release(&mut self, button: Button)
        requires
            old(self).wf(),
        ensures
            final(self).wf(),
            final(self).machine() == (MachineView {
                joypad: JoypadView {
                    pressed: old(self).joypad@.pressed.update(button.index_spec(), false),
                    ..old(self).joypad@
                },
                ..old(self).machine()
            }),
    {
        self.joypad.release(button);
    }

    /// Request the interrupts of `mask` (set their IF bits).
    pub fn request_interrupt(&mut self, mask: u8)
        requires
            old(self).wf(),
        ensures
            final(self).wf(),
            final(self).machine() == (MachineView {
                core: CpuState { mem: request_spec(old(self).mmu@, mask), ..old(self).state() },
                ..old(self).machine()
            }),
    {
        interrupts::request(&mut self.mmu, mask);
    }
}

impl Default for Cpu {
    fn default() -> (r: Self)
        ensures
            r.wf(),
            r.regs == Registers::new_spec(),
            r.cycles == 0,
    {
        Self::new()
    }
}

} // verus!
