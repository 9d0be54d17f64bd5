//! The DMG core's CPU: a subset of the SM83 instruction set (immediate and
//! register loads, 8-bit register arithmetic, PUSH/POP, JP, JR, CALL, RET,
//! DI/EI, HALT), with the timer, PPU and joypad run after every step.
//! An opcode outside that subset takes 4 T-cycles and does nothing else.

use super::interrupts::{self, request_spec, service_spec};
use super::mmu::{lemma_io, lemma_read_after_write, Mmu, MmuView};
use super::ppu::{ppu_step, step_defined, Ppu, PpuView};
use super::timer::{timer_step, Timer};
use crate::timer::TimerView;
use crate::cpu::alu;
use crate::cpu::instructions::{
    alu_apply, alu_spec, check_cond, cond, dec_spec, get_rp, get_rp2, inc_spec, jump_target, lemma_wrap16,
    put_rp, put_rp2, rel, rp2, set_rp, set_rp2, wrap16,
};
use crate::cpu::interrupts::source;
use crate::cpu::registers::Registers;
use crate::input::{joyp_value, Button, Joypad, JoypadView, JOYP_ADDR};
use vstd::prelude::*;

verus! {

pub struct Cpu {
    pub regs: Registers,
    pub mmu: Mmu,
    pub timer: Timer,
    pub ppu: Ppu,
    pub joypad: Joypad,
    /// T-cycles run so far.
    pub cycles: u64,
    pub ime: bool,
    pub halted: bool,
}

/// What instructions act on: registers, memory, IME and HALT.
pub struct DmgState {
    pub regs: Registers,
    pub mem: MmuView,
    pub ime: bool,
    pub halted: bool,
}

/// The whole DMG machine.
pub struct DmgMachine {
    pub core: DmgState,
    pub timer: TimerView,
    pub ppu: PpuView,
    pub joypad: JoypadView,
    pub cycles: u64,
}

/// The byte at PC.
pub open spec fn imm8(s: DmgState) -> u8 {
    s.mem.read(s.regs.pc)
}

/// The little-endian word at PC.
pub open spec fn imm16(s: DmgState) -> u16 {
    s.mem.read_word(s.regs.pc)
}

/// PC advanced by `n`.
pub open spec fn skip(s: DmgState, n: int) -> DmgState {
    DmgState { regs: Registers { pc: wrap16(s.regs.pc + n), ..s.regs }, ..s }
}

/// PC set to `target`.
pub open spec fn jump(s: DmgState, target: u16) -> DmgState {
    DmgState { regs: Registers { pc: target, ..s.regs }, ..s }
}

/// SP lowered by two and the word stored there.
pub open spec fn push(s: DmgState, v: u16) -> DmgState {
    let sp = wrap16(s.regs.sp - 2);
    DmgState { regs: Registers { sp, ..s.regs }, mem: s.mem.write_word(sp, v), ..s }
}

/// The word at SP.
pub open spec fn top(s: DmgState) -> u16 {
    s.mem.read_word(s.regs.sp)
}

/// SP raised by two.
pub open spec fn pop(s: DmgState) -> DmgState {
    DmgState { regs: Registers { sp: wrap16(s.regs.sp + 2), ..s.regs }, ..s }
}

/// CALL to `target`, returning after the two operand bytes.
pub open spec fn call(s: DmgState, target: u16) -> DmgState {
    let s1 = skip(s, 2);
    jump(push(s1, s1.regs.pc), target)
}

/// Register `k` of B, C, D, E, H, L, -, A (`k` is not 6).
pub open spec fn reg8(r: Registers, k: u8) -> u8 {
    if k == 0 {
        r.b
    } else if k == 1 {
        r.c
    } else if k == 2 {
        r.d
    } else if k == 3 {
        r.e
    } else if k == 4 {
        r.h
    } else if k == 5 {
        r.l
    } else {
        r.a
    }
}

/// Register `k` of B, C, D, E, H, L, -, A set to `v`.
pub open spec fn set_reg8(r: Registers, k: u8, v: u8) -> Registers {
    if k == 0 {
        Registers { b: v, ..r }
    } else if k == 1 {
        Registers { c: v, ..r }
    } else if k == 2 {
        Registers { d: v, ..r }
    } else if k == 3 {
        Registers { e: v, ..r }
    } else if k == 4 {
        Registers { h: v, ..r }
    } else if k == 5 {
        Registers { l: v, ..r }
    } else {
        Registers { a: v, ..r }
    }
}

/// The state with registers `r`.
pub open spec fn with_regs(s: DmgState, r: Registers) -> DmgState {
    DmgState { regs: r, ..s }
}

/// Opcodes 0x00-0x3F: NOP, JR, JR cc, LD rr,nn, INC r, DEC r, LD r,n.
pub open spec fn block0(y: u8, z: u8, s: DmgState) -> (DmgState, u32) {
    let r = s.regs;
    if z == 0 {
        if y == 0 {
            (s, 4)
        } else if y == 3 || y >= 4 {
            let s1 = skip(s, 1);
            let target = wrap16(s1.regs.pc + rel(imm8(s)));
            if y == 3 || cond(r, (y - 4) as u8) {
                (jump(s1, target), 12)
            } else {
                (s1, 8)
            }
        } else {
            (s, 4)
        }
    } else if z == 1 && y % 2 == 0 {
        (with_regs(skip(s, 2), set_rp(skip(s, 2).regs, y / 2, imm16(s))), 12)
    } else if (z == 4 || z == 5) && y != 6 {
        let (v, f) = if z == 4 { inc_spec(reg8(r, y), r.f) } else { dec_spec(reg8(r, y), r.f) };
        (with_regs(s, Registers { f, ..set_reg8(r, y, v) }), 4)
    } else if z == 6 && y != 6 {
        (with_regs(skip(s, 1), set_reg8(skip(s, 1).regs, y, imm8(s))), 8)
    } else {
        (s, 4)
    }
}

/// Opcodes 0x40-0x7F: LD r,r' between registers, and HALT.
pub open spec fn block1(y: u8, z: u8, s: DmgState) -> (DmgState, u32) {
    if y == 6 && z == 6 {
        (DmgState { halted: true, ..s }, 4)
    } else if y == 6 || z == 6 {
        (s, 4)
    } else {
        (with_regs(s, set_reg8(s.regs, y, reg8(s.regs, z))), 4)
    }
}

/// Opcodes 0x80-0xBF: ALU operation y on A and a register.
pub open spec fn block2(y: u8, z: u8, s: DmgState) -> (DmgState, u32) {
    if z == 6 {
        (s, 4)
    } else {
        let (a, f) = alu_spec(y, s.regs.a, s.regs.f, reg8(s.regs, z));
        (with_regs(s, Registers { a, f, ..s.regs }), 4)
    }
}

/// Opcodes 0xC0-0xFF: RET, RET cc, POP, PUSH, JP, JP cc, CALL, CALL cc,
/// DI, EI, ALU operations with an immediate.
pub open spec fn block3(y: u8, z: u8, s: DmgState) -> (DmgState, u32) {
    let r = s.regs;
    let p = y / 2;
    if z == 0 {
        if y < 4 {
            if cond(r, y) {
                (jump(pop(s), top(s)), 20)
            } else {
                (s, 8)
            }
        } else {
            (s, 4)
        }
    } else if z == 1 {
        if y % 2 == 0 {
            (with_regs(pop(s), set_rp2(pop(s).regs, p, top(s))), 12)
        } else if y == 1 {
            (jump(pop(s), top(s)), 16)
        } else {
            (s, 4)
        }
    } else if z == 2 {
        if y < 4 {
            if cond(r, y) {
                (jump(skip(s, 2), imm16(s)), 16)
            } else {
                (skip(s, 2), 12)
            }
        } else {
            (s, 4)
        }
    } else if z == 3 {
        if y == 0 {
            (jump(skip(s, 2), imm16(s)), 16)
        } else if y == 6 {
            (DmgState { ime: false, ..s }, 4)
        } else if y == 7 {
            (DmgState { ime: true, ..s }, 4)
        } else {
            (s, 4)
        }
    } else if z == 4 {
        if y < 4 {
            if cond(r, y) {
                (call(s, imm16(s)), 24)
            } else {
                (skip(s, 2), 12)
            }
        } else {
            (s, 4)
        }
    } else if z == 5 {
        if y % 2 == 0 {
            (push(s, rp2(r, p)), 16)
        } else if y == 1 {
            (call(s, imm16(s)), 24)
        } else {
            (s, 4)
        }
    } else if z == 6 {
        let (a, f) = alu_spec(y, r.a, r.f, imm8(s));
        (with_regs(skip(s, 1), Registers { a, f, ..skip(s, 1).regs }), 8)
    } else {
        (s, 4)
    }
}

/// The instruction with opcode `op`, PC already past the opcode.
pub open spec fn execute(op: u8, s: DmgState) -> (DmgState, u32) {
    let x = op / 64;
    let y = (op / 8) % 8;
    let z = op % 8;
    if x == 0 {
        block0(y, z, s)
    } else if x == 1 {
        block1(y, z, s)
    } else if x == 2 {
        block2(y, z, s)
    } else {
        block3(y, z, s)
    }
}

/// One instruction: fetch the opcode at PC and execute it.
pub open spec fn step_spec(s: DmgState) -> (DmgState, u32) {
    execute(imm8(s), skip(s, 1))
}

/// Register `k` of B, C, D, E, H, L, -, A (`k` is not 6).
fn read_reg8(r: &Registers, k: u8) -> (v: u8)
    ensures
        v == reg8(*r, k),
{
    if k == 0 {
        r.b
    } else if k == 1 {
        r.c
    } else if k == 2 {
        r.d
    } else if k == 3 {
        r.e
    } else if k == 4 {
        r.h
    } else if k == 5 {
        r.l
    } else {
        r.a
    }
}

/// Set register `k` of B, C, D, E, H, L, -, A.
fn write_reg8(r: &mut Registers, k: u8, v: u8)
    ensures
        *final(r) == set_reg8(*old(r), k, v),
{
    if k == 0 {
        r.b = v;
    } else if k == 1 {
        r.c = v;
    } else if k == 2 {
        r.d = v;
    } else if k == 3 {
        r.e = v;
    } else if k == 4 {
        r.h = v;
    } else if k == 5 {
        r.l = v;
    } else {
        r.a = v;
    }
}

impl Cpu {
    /// The part of the machine instructions act on.
    pub open spec fn state(&self) -> DmgState {
        DmgState { regs: self.regs, mem: self.mmu@, ime: self.ime, halted: self.halted }
    }

    /// The devices and the cycle counter are those of `other`.
    pub open spec fn same_devices(&self, other: &Cpu) -> bool {
        &&& self.timer == other.timer
        &&& self.ppu == other.ppu
        &&& self.joypad == other.joypad
        &&& self.cycles == other.cycles
    }

    fn fetch_byte(&mut self) -> (b: u8)
        requires
            old(self).mmu.wf(),
        ensures
            final(self).mmu.wf(),
            final(self).same_devices(old(self)),
            b == imm8(old(self).state()),
            final(self).state() == skip(old(self).state(), 1),
    {
        let b = self.mmu.read_byte(self.regs.pc);
        proof {
            lemma_wrap16(self.regs.pc, 1);
        }
        self.regs.pc = self.regs.pc.wrapping_add(1);
        b
    }

    fn fetch_word(&mut self) -> (w: u16)
        requires
            old(self).mmu.wf(),
        ensures
            final(self).mmu.wf(),
            final(self).same_devices(old(self)),
            w == imm16(old(self).state()),
            final(self).state() == skip(old(self).state(), 2),
    {
        let w = self.mmu.read_word(self.regs.pc);
        proof {
            lemma_wrap16(self.regs.pc, 2);
        }
        self.regs.pc = self.regs.pc.wrapping_add(2);
        w
    }

    fn stack_push(&mut self, value: u16)
        requires
            old(self).mmu.wf(),
        ensures
            final(self).mmu.wf(),
            final(self).same_devices(old(self)),
            final(self).state() == push(old(self).state(), value),
    {
        proof {
            lemma_wrap16(self.regs.sp, 2);
        }
        self.regs.sp = self.regs.sp.wrapping_sub(2);
        self.mmu.write_word(self.regs.sp, value);
    }

    fn stack_pop(&mut self) -> (v: u16)
        requires
            old(self).mmu.wf(),
        ensures
            final(self).mmu.wf(),
            final(self).same_devices(old(self)),
            v == top(old(self).state()),
            final(self).state() == pop(old(self).state()),
    {
        let v = self.mmu.read_word(self.regs.sp);
        proof {
            lemma_wrap16(self.regs.sp, 2);
        }
        self.regs.sp = self.regs.sp.wrapping_add(2);
        v
    }

    /// Opcodes 0x00-0x3F.
    fn exec_block0(&mut self, y: u8, z: u8) -> (c: u32)
        requires
            old(self).mmu.wf(),
            y < 8,
            z < 8,
        ensures
            final(self).mmu.wf(),
            final(self).same_devices(old(self)),
            (final(self).state(), c) == block0(y, z, old(self).state()),
    {
        if z == 0 {
            if y == 0 {
                4
            } else if y >= 3 {
                let e = self.fetch_byte();
                if y == 3 || check_cond(&self.regs, y - 4) {
                    self.regs.pc = jump_target(self.regs.pc, e);
                    12
                } else {
                    8
                }
            } else {
                4
            }
        } else if z == 1 && y % 2 == 0 {
            let nn = self.fetch_word();
            put_rp(&mut self.regs, y / 2, nn);
            12
        } else if (z == 4 || z == 5) && y != 6 {
            let v = read_reg8(&self.regs, y);
            let r = if z == 4 { alu::inc(v, self.regs.f) } else { alu::dec(v, self.regs.f) };
            write_reg8(&mut self.regs, y, r.value);
            self.regs.f = r.flags;
            4
        } else if z == 6 && y != 6 {
            let n = self.fetch_byte();
            write_reg8(&mut self.regs, y, n);
            8
        } else {
            4
        }
    }

    /// Opcodes 0x40-0x7F.
    fn exec_block1(&mut self, y: u8, z: u8) -> (c: u32)
        requires
            old(self).mmu.wf(),
            y < 8,
            z < 8,
        ensures
            final(self).mmu.wf(),
            final(self).same_devices(old(self)),
            (final(self).state(), c) == block1(y, z, old(self).state()),
    {
        if y == 6 && z == 6 {
            self.halted = true;
        } else if y != 6 && z != 6 {
            let v = read_reg8(&self.regs, z);
            write_reg8(&mut self.regs, y, v);
        }
        4
    }

    /// Opcodes 0x80-0xBF.
    fn exec_block2(&mut self, y: u8, z: u8) -> (c: u32)
        requires
            old(self).mmu.wf(),
            y < 8,
            z < 8,
        ensures
            final(self).mmu.wf(),
            final(self).same_devices(old(self)),
            (final(self).state(), c) == block2(y, z, old(self).state()),
    {
        if z != 6 {
            let v = read_reg8(&self.regs, z);
            alu_apply(&mut self.regs, y, v);
        }
        4
    }

    /// Opcodes 0xC0-0xFF with z of 0 to 3.
    fn exec_block3_low(&mut self, y: u8, z: u8) -> (c: u32)
        requires
            old(self).mmu.wf(),
            y < 8,
            z < 4,
        ensures
            final(self).mmu.wf(),
            final(self).same_devices(old(self)),
            (final(self).state(), c) == block3(y, z, old(self).state()),
    {
        if z == 0 {
            if y < 4 {
                if check_cond(&self.regs, y) {
                    let a = self.stack_pop();
                    self.regs.pc = a;
                    20
                } else {
                    8
                }
            } else {
                4
            }
        } else if z == 1 {
            if y % 2 == 0 {
                let v = self.stack_pop();
                put_rp2(&mut self.regs, y / 2, v);
                12
            } else if y == 1 {
                let a = self.stack_pop();
                self.regs.pc = a;
                16
            } else {
                4
            }
        } else if z == 2 {
            if y < 4 {
                let nn = self.fetch_word();
                if check_cond(&self.regs, y) {
                    self.regs.pc = nn;
                    16
                } else {
                    12
                }
            } else {
                4
            }
        } else {
            if y == 0 {
                let nn = self.fetch_word();
                self.regs.pc = nn;
                16
            } else if y == 6 {
                self.ime = false;
                4
            } else if y == 7 {
                self.ime = true;
                4
            } else {
                4
            }
        }
    }

    /// Opcodes 0xC0-0xFF with z of 4 to 7.
    fn exec_block3_high(&mut self, y: u8, z: u8) -> (c: u32)
        requires
            old(self).mmu.wf(),
            y < 8,
            4 <= z < 8,
        ensures
            final(self).mmu.wf(),
            final(self).same_devices(old(self)),
            (final(self).state(), c) == block3(y, z, old(self).state()),
    {
        if z == 4 {
            if y < 4 {
                let cc = check_cond(&self.regs, y);
                let nn = self.fetch_word();
                if cc {
                    let ret = self.regs.pc;
                    self.stack_push(ret);
                    self.regs.pc = nn;
                    24
                } else {
                    12
                }
            } else {
                4
            }
        } else if z == 5 {
            if y % 2 == 0 {
                let v = get_rp2(&self.regs, y / 2);
                self.stack_push(v);
                16
            } else if y == 1 {
                let nn = self.fetch_word();
                let ret = self.regs.pc;
                self.stack_push(ret);
                self.regs.pc = nn;
                24
            } else {
                4
            }
        } else if z == 6 {
            let n = self.fetch_byte();
            alu_apply(&mut self.regs, y, n);
            8
        } else {
            4
        }
    }

    /// Fetch and execute one instruction; returns the T-cycles it took.
    pub fn step(&mut self) -> (c: u32)
        requires
            old(self).mmu.wf(),
        ensures
            final(self).mmu.wf(),
            final(self).same_devices(old(self)),
            (final(self).state(), c) == step_spec(old(self).state()),
    {
        let op = self.fetch_byte();
        let x = op / 64;
        let y = (op / 8) % 8;
        let z = op % 8;
        if x == 0 {
            self.exec_block0(y, z)
        } else if x == 1 {
            self.exec_block1(y, z)
        } else if x == 2 {
            self.exec_block2(y, z)
        } else if z < 4 {
            self.exec_block3_low(y, z)
        } else {
            self.exec_block3_high(y, z)
        }
    }
}

/// Every instruction takes at least 4 T-cycles.
pub proof fn lemma_step_cycles(s: DmgState)
    ensures
        step_spec(s).1 >= 4,
{
    let op = imm8(s);
    let t = skip(s, 1);
    let y = (op / 8) % 8;
    let z = op % 8;
    if op / 64 == 0 {
        assert(block0(y, z, t).1 >= 4);
    } else if op / 64 == 3 {
        assert(block3(y, z, t).1 >= 4);
    }
}

/// A word pushed on the stack is the word on top of the stack, and popping
/// it restores SP, when the two stack bytes lie in WRAM, OAM or at 0xFF00
/// and above.
pub proof fn lemma_push_then_pop(s: DmgState, v: u16)
    requires
        s.mem.wf(),
        (0xC000 <= wrap16(s.regs.sp - 2) <= 0xFE9E) || (0xFF00 <= wrap16(s.regs.sp - 2) <= 0xFFFE),
    ensures
        top(push(s, v)) == v,
        pop(push(s, v)).regs.sp == s.regs.sp,
        pop(push(s, v)).regs.pc == s.regs.pc,
{
    let sp = wrap16(s.regs.sp - 2);
    let low = (v % 256) as u8;
    let high = (v / 256) as u8;
    let hi_addr = ((sp + 1) % 0x10000) as u16;
    let m1 = s.mem.write(sp, low);
    let m2 = m1.write(hi_addr, high);
    assert(m2.read(hi_addr) == high) by {
        reveal(MmuView::write);
        lemma_read_after_write(m1, hi_addr, high);
    }
    assert(m2.read(sp) == low) by {
        reveal(MmuView::read);
        reveal(MmuView::write);
        lemma_read_after_write(s.mem, sp, low);
    }
}

/// Every tick advances the cycle counter: an interrupt dispatch takes 20
/// T-cycles, HALT 4, and every instruction at least 4.
pub proof fn lemma_tick_advances(mv: DmgMachine)
    requires
        tick_defined(mv),
    ensures
        tick_core(mv.core).1 >= 4,
        tick_spec(mv).0.cycles == mv.cycles + tick_core(mv.core).1,
{
    reveal(tick_spec);
    reveal(tick_defined);
    let s = mv.core;
    let (m1, ime1, h1, pc1, sp1, irq) = service_spec(s.mem, s.ime, s.halted, s.regs.pc, s.regs.sp);
    let s1 = DmgState { regs: Registers { pc: pc1, sp: sp1, ..s.regs }, mem: m1, ime: ime1, halted: h1 };
    lemma_step_cycles(s1);
}

/// One joypad sync on the DMG memory map: JOYP gets the button byte for
/// its selected group; an interrupt is due when a line went from high to
/// low while a press was pending.
pub open spec fn joypad_sync(j: JoypadView, m: MmuView) -> (JoypadView, MmuView, bool) {
    let current = m.io[0];
    let updated = joyp_value(j.pressed, current);
    (
        JoypadView { irq_pending: false, ..j },
        MmuView { io: m.io.update(0, updated), ..m },
        (!updated & current) & 0x0F != 0 && j.irq_pending,
    )
}

/// Memory after the timer step of a peripheral step, and the new timer.
pub open spec fn after_timer(mv: DmgMachine, cycles: u32) -> (TimerView, MmuView) {
    let (t, m1, irq) = timer_step(mv.timer, mv.core.mem, cycles);
    (t, if irq { request_spec(m1, source::TIMER) } else { m1 })
}

/// The timer, PPU and joypad run for `cycles` T-cycles, requesting their
/// interrupts.
pub open spec fn peripherals_spec(mv: DmgMachine, cycles: u32) -> DmgMachine {
    let (t, m2) = after_timer(mv, cycles);
    let (p, m3, v, st) = ppu_step(mv.ppu, m2, cycles);
    let m4 = if v { request_spec(m3, source::VBLANK) } else { m3 };
    let m5 = if st { request_spec(m4, source::LCD_STAT) } else { m4 };
    let (j, m6, jirq) = joypad_sync(mv.joypad, m5);
    let m7 = if jirq { request_spec(m6, source::JOYPAD) } else { m6 };
    DmgMachine { core: DmgState { mem: m7, ..mv.core }, timer: t, ppu: p, joypad: j, ..mv }
}

/// The PPU's counters cannot overflow in this step.
pub open spec fn peripherals_defined(mv: DmgMachine, cycles: u32) -> bool {
    step_defined(mv.ppu, after_timer(mv, cycles).1, cycles)
}

/// The CPU part of a tick: an interrupt dispatch, or else one instruction
/// (4 idle T-cycles in HALT).
pub open spec fn tick_core(s: DmgState) -> (DmgState, u32) {
    let (m1, ime1, h1, pc1, sp1, irq) = service_spec(s.mem, s.ime, s.halted, s.regs.pc, s.regs.sp);
    let s1 = DmgState { regs: Registers { pc: pc1, sp: sp1, ..s.regs }, mem: m1, ime: ime1, halted: h1 };
    if irq > 0 {
        (s1, irq)
    } else if s1.halted {
        (s1, 4)
    } else {
        step_spec(s1)
    }
}

/// One `Cpu::tick`: the CPU part, the cycle counter, then the devices.
#[verifier::opaque]
pub open spec fn tick_spec(mv: DmgMachine) -> (DmgMachine, u32) {
    let (s, n) = tick_core(mv.core);
    (peripherals_spec(DmgMachine { core: s, cycles: (mv.cycles + n) as u64, ..mv }, n), n)
}

/// The tick cannot overflow a counter.
#[verifier::opaque]
pub open spec fn tick_defined(mv: DmgMachine) -> bool {
    let (s, n) = tick_core(mv.core);
    &&& mv.cycles + n <= u64::MAX
    &&& peripherals_defined(DmgMachine { core: s, cycles: (mv.cycles + n) as u64, ..mv }, n)
}

/// Bring JOYP up to date with the buttons on the DMG memory map and
/// consume the pending press; returns whether a Joypad interrupt is due.
fn sync_joypad(joypad: &mut Joypad, mmu: &mut Mmu) -> (r: bool)
    requires
        old(joypad).wf(),
        old(mmu).wf(),
    ensures
        final(joypad).wf(),
        final(mmu).wf(),
        (final(joypad)@, final(mmu)@, r) == joypad_sync(old(joypad)@, old(mmu)@),
{
    proof {
        lemma_io(mmu@, JOYP_ADDR);
    }
    let current = mmu.read_byte(JOYP_ADDR);
    let updated = joypad.joyp_for(current);
    mmu.write_byte(JOYP_ADDR, updated);
    let pending = joypad.take_pending();
    (!updated & current) & 0x0F != 0 && pending
}

impl Cpu {
    /// The machine's state.
    pub open spec fn machine(&self) -> DmgMachine {
        DmgMachine {
            core: self.state(),
            timer: self.timer@,
            ppu: self.ppu@,
            joypad: self.joypad@,
            cycles: self.cycles,
        }
    }

    /// Every part keeps its invariant.
    pub open spec fn wf(&self) -> bool {
        &&& self.mmu.wf()
        &&& self.ppu.wf()
        &&& self.joypad.wf()
    }

    /// Power-on: boot register values, fresh memory and devices, no cycles
    /// run, interrupts disabled, not halted.
    pub fn new() -> (r: Self)
        ensures
            r.wf(),
            r.regs == Registers::new_spec(),
            r.mmu@ == Mmu::new_spec(),
            r.timer@ == (TimerView { div_counter: 0, tima_counter: 0 }),
            r.ppu@ == (PpuView { framebuffer: Seq::new(23040, |i: int| 0u8), cycle: 0, mode: 2, frame_ready: false }),
            r.joypad@ == (JoypadView { pressed: Seq::new(8, |i: int| false), irq_pending: false }),
            r.cycles == 0,
            !r.ime,
            !r.halted,
    {
        Cpu {
            regs: Registers::new(),
            mmu: Mmu::new(),
            timer: Timer::new(),
            ppu: Ppu::new(),
            joypad: Joypad::new(),
            cycles: 0,
            ime: false,
            halted: false,
        }
    }

    /// Run one interrupt dispatch or one instruction (4 idle T-cycles while
    /// halted), then the timer, PPU and joypad for as long; returns the
    /// T-cycles taken.
    pub fn tick(&mut self) -> (r: u32)
        requires
            old(self).wf(),
            tick_defined(old(self).machine()),
        ensures
            final(self).wf(),
            (final(self).machine(), r) == tick_spec(old(self).machine()),
    {
        proof {
            reveal(tick_spec);
            reveal(tick_defined);
        }
        let n = self.tick_cpu();
        self.cycles = self.cycles + n as u64;
        self.step_peripherals(n);
        n
    }

    /// `tick`, on any machine: `None` where a tick would overflow one of
    /// the machine's counters (the machine is then left part-way).
    pub fn try_tick(&mut self) -> (r: Option<u32>)
        requires
            old(self).wf(),
        ensures
            final(self).wf(),
            tick_defined(old(self).machine()) ==> r == Some(tick_spec(old(self).machine()).1) && final(self).machine()
                == tick_spec(old(self).machine()).0,
            !tick_defined(old(self).machine()) ==> r is None,
    {
        proof {
            reveal(tick_spec);
            reveal(tick_defined);
        }
        let n = self.tick_cpu();
        if self.cycles > u64::MAX - n as u64 {
            return None;
        }
        self.cycles = self.cycles + n as u64;
        let irq = self.timer.step(n, &mut self.mmu);
        if irq {
            interrupts::request(&mut self.mmu, source::TIMER);
        }
        if !self.ppu.step_is_defined(n, &self.mmu) {
            return None;
        }
        self.run_devices(n);
        Some(n)
    }

    /// The CPU part of a tick.
    fn tick_cpu(&mut self) -> (n: u32)
        requires
            old(self).wf(),
        ensures
            final(self).wf(),
            final(self).same_devices(old(self)),
            (final(self).state(), n) == tick_core(old(self).state()),
    {
        let irq_cycles = interrupts::service(
            &mut self.mmu,
            &mut self.ime,
            &mut self.halted,
            &mut self.regs.pc,
            &mut self.regs.sp,
        );
        if irq_cycles > 0 {
            return irq_cycles;
        }
        if self.halted {
            4
        } else {
            self.step()
        }
    }

    /// Timer, PPU and joypad for `cycles` T-cycles, with their interrupts.
    fn step_peripherals(&mut self, cycles: u32)
        requires
            old(self).wf(),
            peripherals_defined(old(self).machine(), cycles),
        ensures
            final(self).wf(),
            final(self).machine() == peripherals_spec(old(self).machine(), cycles),
    {
        if self.timer.step(cycles, &mut self.mmu) {
            interrupts::request(&mut self.mmu, source::TIMER);
        }
        self.run_devices(cycles);
    }

    /// PPU and joypad, after the timer, for `cycles` T-cycles.
    fn run_devices(&mut self, cycles: u32)
        requires
            old(self).wf(),
            step_defined(old(self).ppu@, old(self).mmu@, cycles),
        ensures
            final(self).wf(),
            ({
                let (p, m3, v, st) = ppu_step(old(self).ppu@, old(self).mmu@, cycles);
                let m4 = if v { request_spec(m3, source::VBLANK) } else { m3 };
                let m5 = if st { request_spec(m4, source::LCD_STAT) } else { m4 };
                let (j, m6, jirq) = joypad_sync(old(self).joypad@, m5);
                let m7 = if jirq { request_spec(m6, source::JOYPAD) } else { m6 };
                final(self).machine() == (DmgMachine {
                    core: DmgState { mem: m7, ..old(self).state() },
                    ppu: p,
                    joypad: j,
                    ..old(self).machine()
                })
            }),
    {
        let r = self.ppu.step(cycles, &mut self.mmu);
        if r.vblank_irq {
            interrupts::request(&mut self.mmu, source::VBLANK);
        }
        if r.stat_irq {
            interrupts::request(&mut self.mmu, source::LCD_STAT);
        }
        if sync_joypad(&mut self.joypad, &mut self.mmu) {
            interrupts::request(&mut self.mmu, source::JOYPAD);
        }
    }

    /// Notify the machine that a button was pressed.
    pub fn button_press(&mut self, button: Button)
        requires
            old(self).wf(),
        ensures
            final(self).wf(),
            final(self).machine() == (DmgMachine {
                joypad: JoypadView {
                    pressed: old(self).joypad@.pressed.update(button.index_spec(), true),
                    irq_pending: old(self).joypad@.irq_pending || !old(self).joypad@.pressed[button.index_spec()],
                },
                ..old(self).machine()
            }),
    {
        self.joypad.press(button);
    }

    /// Notify the machine that a button was released.
    pub fn button_release(&mut self, button: Button)
        requires
            old(self).wf(),
        ensures
            final(self).wf(),
            final(self).machine() == (DmgMachine {
                joypad: JoypadView {
                    pressed: old(self).joypad@.pressed.update(button.index_spec(), false),
                    ..old(self).joypad@
                },
                ..old(self).machine()
            }),
    {
        self.joypad.release(button);
    }

    /// Request the interrupts of `mask` from outside the CPU.
    pub fn request_interrupt(&mut self, mask: u8)
        requires
            old(self).wf(),
        ensures
            final(self).wf(),
            final(self).machine() == (DmgMachine {
                core: DmgState { mem: request_spec(old(self).mmu@, mask), ..old(self).state() },
                ..old(self).machine()
            }),
    {
        interrupts::request(&mut self.mmu, mask);
    }
}

impl Default for Cpu {
    fn default() -> (r: Self)
        ensures
            r.wf(),
            r.regs == Registers::new_spec(),
            r.cycles == 0,
    {
        Self::new()
    }
}

} // verus!
