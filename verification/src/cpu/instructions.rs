//! The SM83 instruction set: what each opcode does to the registers, the
//! memory, IME and the HALT flag, and how many T-cycles it takes.
//!
//! Opcodes are decoded by their fields x (bits 7-6), y (bits 5-3) and
//! z (bits 2-0), with p = y / 2 and q = y % 2. The 8-bit operand table is
//! B, C, D, E, H, L, (HL), A; the pair tables are BC, DE, HL, SP (for loads
//! and arithmetic) and BC, DE, HL, AF (for PUSH and POP); the condition
//! table is NZ, Z, NC, C; the ALU table is ADD, ADC, SUB, SBC, AND, XOR,
//! OR, CP. Opcodes the SM83 does not define take 4 T-cycles and do nothing.

use super::alu::{self, flag_byte, make_flags};
use super::registers::{flags, has_flag, hi, lo, set_flag_spec, word, Registers};
use super::Cpu;
use super::interrupts::{acknowledge_spec, highest_priority, pending_spec, service_spec, source_mask, IF_ADDR};
use crate::mmu::{lemma_high_write_keeps_rom, lemma_word_read_after_write, MmuView};
use vstd::prelude::*;

verus! {

/// What an instruction acts on.
pub struct CpuState {
    pub regs: Registers,
    pub mem: MmuView,
    pub ime: bool,
    pub halted: bool,
}

/// A value taken modulo 2^16.
pub open spec fn wrap16(x: int) -> u16 {
    (x % 0x10000) as u16
}

/// An 8-bit offset read as a signed (two's complement) byte.
pub open spec fn rel(e: u8) -> int {
    if e < 128 {
        e as int
    } else {
        e - 256
    }
}

pub open spec fn bc(r: Registers) -> u16 {
    word(r.b, r.c)
}

pub open spec fn de(r: Registers) -> u16 {
    word(r.d, r.e)
}

pub open spec fn hl(r: Registers) -> u16 {
    word(r.h, r.l)
}

pub open spec fn af(r: Registers) -> u16 {
    word(r.a, r.f & 0xF0)
}

pub open spec fn with_hl(r: Registers, v: u16) -> Registers {
    Registers { h: hi(v), l: lo(v), ..r }
}

/// Register pair `p` of BC, DE, HL, SP.
pub open spec fn rp(r: Registers, p: u8) -> u16 {
    if p == 0 {
        bc(r)
    } else if p == 1 {
        de(r)
    } else if p == 2 {
        hl(r)
    } else {
        r.sp
    }
}

pub open spec fn set_rp(r: Registers, p: u8, v: u16) -> Registers {
    if p == 0 {
        Registers { b: hi(v), c: lo(v), ..r }
    } else if p == 1 {
        Registers { d: hi(v), e: lo(v), ..r }
    } else if p == 2 {
        with_hl(r, v)
    } else {
        Registers { sp: v, ..r }
    }
}

/// Register pair `p` of BC, DE, HL, AF.
pub open spec fn rp2(r: Registers, p: u8) -> u16 {
    if p == 3 {
        af(r)
    } else {
        rp(r, p)
    }
}

pub open spec fn set_rp2(r: Registers, p: u8, v: u16) -> Registers {
    if p == 3 {
        Registers { a: hi(v), f: lo(v) & 0xF0, ..r }
    } else {
        set_rp(r, p, v)
    }
}

/// Operand `k` of B, C, D, E, H, L, (HL), A.
pub open spec fn r8(s: CpuState, k: u8) -> u8 {
    if k == 0 {
        s.regs.b
    } else if k == 1 {
        s.regs.c
    } else if k == 2 {
        s.regs.d
    } else if k == 3 {
        s.regs.e
    } else if k == 4 {
        s.regs.h
    } else if k == 5 {
        s.regs.l
    } else if k == 6 {
        s.mem.read(hl(s.regs))
    } else {
        s.regs.a
    }
}

pub open spec fn set_r8(s: CpuState, k: u8, v: u8) -> CpuState {
    if k == 0 {
        CpuState { regs: Registers { b: v, ..s.regs }, ..s }
    } else if k == 1 {
        CpuState { regs: Registers { c: v, ..s.regs }, ..s }
    } else if k == 2 {
        CpuState { regs: Registers { d: v, ..s.regs }, ..s }
    } else if k == 3 {
        CpuState { regs: Registers { e: v, ..s.regs }, ..s }
    } else if k == 4 {
        CpuState { regs: Registers { h: v, ..s.regs }, ..s }
    } else if k == 5 {
        CpuState { regs: Registers { l: v, ..s.regs }, ..s }
    } else if k == 6 {
        CpuState { mem: s.mem.write(hl(s.regs), v), ..s }
    } else {
        CpuState { regs: Registers { a: v, ..s.regs }, ..s }
    }
}

pub open spec fn set_regs(s: CpuState, r: Registers) -> CpuState {
    CpuState { regs: r, ..s }
}

pub open spec fn set_f(s: CpuState, f: u8) -> CpuState {
    CpuState { regs: Registers { f, ..s.regs }, ..s }
}

/// Condition `cc` of NZ, Z, NC, C.
pub open spec fn cond(r: Registers, cc: u8) -> bool {
    if cc == 0 {
        !has_flag(r.f, flags::Z)
    } else if cc == 1 {
        has_flag(r.f, flags::Z)
    } else if cc == 2 {
        !has_flag(r.f, flags::C)
    } else {
        has_flag(r.f, flags::C)
    }
}

/// The byte at PC.
pub open spec fn imm8(s: CpuState) -> u8 {
    s.mem.read(s.regs.pc)
}

/// The little-endian word at PC.
pub open spec fn imm16(s: CpuState) -> u16 {
    word(s.mem.read(wrap16(s.regs.pc + 1)), s.mem.read(s.regs.pc))
}

/// PC advanced by `n` bytes.
pub open spec fn skip(s: CpuState, n: int) -> CpuState {
    CpuState { regs: Registers { pc: wrap16(s.regs.pc + n), ..s.regs }, ..s }
}

pub open spec fn jump(s: CpuState, target: u16) -> CpuState {
    CpuState { regs: Registers { pc: target, ..s.regs }, ..s }
}

/// SP lowered by two and the word stored there.
pub open spec fn push(s: CpuState, v: u16) -> CpuState {
    let sp = wrap16(s.regs.sp - 2);
    CpuState { regs: Registers { sp, ..s.regs }, mem: s.mem.write_word(sp, v), ..s }
}

/// The word at SP.
pub open spec fn top(s: CpuState) -> u16 {
    s.mem.read_word(s.regs.sp)
}

/// SP raised by two.
pub open spec fn pop(s: CpuState) -> CpuState {
    CpuState { regs: Registers { sp: wrap16(s.regs.sp + 2), ..s.regs }, ..s }
}

/// A and F after ALU operation `op` (ADD, ADC, SUB, SBC, AND, XOR, OR, CP)
/// on A and `x`.
pub open spec fn alu_spec(op: u8, a: u8, f: u8, x: u8) -> (u8, u8) {
    let c: int = if has_flag(f, flags::C) { 1 } else { 0 };
    if op == 0 {
        (((a + x) % 256) as u8, flag_byte((a + x) % 256 == 0, false, a % 16 + x % 16 > 15, a + x > 255))
    } else if op == 1 {
        (
            ((a + x + c) % 256) as u8,
            flag_byte((a + x + c) % 256 == 0, false, a % 16 + x % 16 + c > 15, a + x + c > 255),
        )
    } else if op == 2 {
        (((a - x) % 256) as u8, flag_byte((a - x) % 256 == 0, true, a % 16 < x % 16, a < x))
    } else if op == 3 {
        (
            ((a - x - c) % 256) as u8,
            flag_byte((a - x - c) % 256 == 0, true, a % 16 < x % 16 + c, a < x + c),
        )
    } else if op == 4 {
        (a & x, flag_byte(a & x == 0, false, true, false))
    } else if op == 5 {
        (a ^ x, flag_byte(a ^ x == 0, false, false, false))
    } else if op == 6 {
        (a | x, flag_byte(a | x == 0, false, false, false))
    } else {
        (a, flag_byte((a - x) % 256 == 0, true, a % 16 < x % 16, a < x))
    }
}

/// INC r: value and flags (carry kept).
pub open spec fn inc_spec(x: u8, f: u8) -> (u8, u8) {
    (((x + 1) % 256) as u8, flag_byte((x + 1) % 256 == 0, false, x % 16 == 15, has_flag(f, flags::C)))
}

/// DEC r: value and flags (carry kept).
pub open spec fn dec_spec(x: u8, f: u8) -> (u8, u8) {
    (((x - 1) % 256) as u8, flag_byte((x - 1) % 256 == 0, true, x % 16 == 0, has_flag(f, flags::C)))
}

/// Shift or rotate `k` (RLC, RRC, RL, RR, SLA, SRA, SWAP, SRL) of `v` with
/// carry in `c`: the result and the carry out.
pub open spec fn shift_spec(k: u8, v: u8, c: bool) -> (u8, bool) {
    let cin: int = if c { 1 } else { 0 };
    if k == 0 {
        (((v % 128) * 2 + v / 128) as u8, v >= 128)
    } else if k == 1 {
        ((v / 2 + (v % 2) * 128) as u8, v % 2 == 1)
    } else if k == 2 {
        (((v % 128) * 2 + cin) as u8, v >= 128)
    } else if k == 3 {
        ((v / 2 + cin * 128) as u8, v % 2 == 1)
    } else if k == 4 {
        (((v % 128) * 2) as u8, v >= 128)
    } else if k == 5 {
        ((v / 2 + (v / 128) * 128) as u8, v % 2 == 1)
    } else if k == 6 {
        ((v / 16 + (v % 16) * 16) as u8, false)
    } else {
        ((v / 2) as u8, v % 2 == 1)
    }
}

/// DAA: A and F after decimal adjustment.
pub open spec fn daa_spec(a: u8, f: u8) -> (u8, u8) {
    if !has_flag(f, flags::N) {
        let a1: u8 = if has_flag(f, flags::H) || a % 16 > 9 { ((a + 6) % 256) as u8 } else { a };
        let carry = has_flag(f, flags::C) || a1 > 0x99;
        let a2: u8 = if carry { ((a1 + 0x60) % 256) as u8 } else { a1 };
        let f1 = if carry { set_flag_spec(f, flags::C, true) } else { f };
        (a2, set_flag_spec(set_flag_spec(f1, flags::Z, a2 == 0), flags::H, false))
    } else {
        let a1: u8 = if has_flag(f, flags::H) { ((a - 6) % 256) as u8 } else { a };
        let a2: u8 = if has_flag(f, flags::C) { ((a1 - 0x60) % 256) as u8 } else { a1 };
        (a2, set_flag_spec(set_flag_spec(f, flags::Z, a2 == 0), flags::H, false))
    }
}

/// SP plus a signed offset, with H and C from the low nibble and byte.
pub open spec fn sp_offset(sp: u16, e: u8) -> (u16, u8) {
    (wrap16(sp + rel(e)), flag_byte(false, false, sp % 16 + e % 16 > 15, sp % 256 + e > 255))
}

/// ADD HL, v.
pub open spec fn add_hl_spec(r: Registers, v: u16) -> Registers {
    let h = hl(r);
    let f = set_flag_spec(
        set_flag_spec(set_flag_spec(r.f, flags::N, false), flags::H, h % 0x1000 + v % 0x1000 > 0xFFF),
        flags::C,
        h + v > 0xFFFF,
    );
    Registers { f, ..with_hl(r, wrap16(h + v)) }
}

/// x = 0, z = 0: NOP, LD (nn),SP, STOP, JR, JR cc.
pub open spec fn block0_z0(y: u8, s: CpuState) -> (CpuState, u32) {
    if y == 0 {
        (s, 4)
    } else if y == 1 {
        let s1 = skip(s, 2);
        (CpuState { mem: s1.mem.write_word(imm16(s), s1.regs.sp), ..s1 }, 20)
    } else if y == 2 {
        (skip(s, 1), 4)
    } else {
        let s1 = skip(s, 1);
        let target = wrap16(s1.regs.pc + rel(imm8(s)));
        if y == 3 || cond(s.regs, (y - 4) as u8) {
            (jump(s1, target), 12)
        } else {
            (s1, 8)
        }
    }
}

/// x = 0, z = 2: LD (rr),A and LD A,(rr) for rr of BC, DE, HL+, HL-.
pub open spec fn block0_z2(y: u8, s: CpuState) -> (CpuState, u32) {
    let r = s.regs;
    let p = y / 2;
    let addr = if p == 0 { bc(r) } else if p == 1 { de(r) } else { hl(r) };
    let r1 = if p == 2 {
        with_hl(r, wrap16(hl(r) + 1))
    } else if p == 3 {
        with_hl(r, wrap16(hl(r) - 1))
    } else {
        r
    };
    if y % 2 == 0 {
        (CpuState { regs: r1, mem: s.mem.write(addr, r.a), ..s }, 8)
    } else {
        (CpuState { regs: Registers { a: s.mem.read(addr), ..r1 }, ..s }, 8)
    }
}

/// x = 0, z = 7: RLCA, RRCA, RLA, RRA, DAA, CPL, SCF, CCF.
pub open spec fn block0_z7(y: u8, s: CpuState) -> (CpuState, u32) {
    let r = s.regs;
    if y < 4 {
        let (v, c) = shift_spec(y, r.a, has_flag(r.f, flags::C));
        (set_regs(s, Registers { a: v, f: flag_byte(false, false, false, c), ..r }), 4)
    } else if y == 4 {
        let (a, f) = daa_spec(r.a, r.f);
        (set_regs(s, Registers { a, f, ..r }), 4)
    } else if y == 5 {
        (set_regs(s, Registers { a: !r.a, f: set_flag_spec(set_flag_spec(r.f, flags::N, true), flags::H, true), ..r }), 4)
    } else {
        let c = if y == 6 { true } else { !has_flag(r.f, flags::C) };
        (set_f(s, set_flag_spec(set_flag_spec(set_flag_spec(r.f, flags::N, false), flags::H, false), flags::C, c)), 4)
    }
}

/// Opcodes 0x00-0x3F.
pub open spec fn block0(y: u8, z: u8, s: CpuState) -> (CpuState, u32) {
    let r = s.regs;
    let p = y / 2;
    if z == 0 {
        block0_z0(y, s)
    } else if z == 1 {
        if y % 2 == 0 {
            (set_regs(skip(s, 2), set_rp(skip(s, 2).regs, p, imm16(s))), 12)
        } else {
            (set_regs(s, add_hl_spec(r, rp(r, p))), 8)
        }
    } else if z == 2 {
        block0_z2(y, s)
    } else if z == 3 {
        let v = if y % 2 == 0 { wrap16(rp(r, p) + 1) } else { wrap16(rp(r, p) - 1) };
        (set_regs(s, set_rp(r, p, v)), 8)
    } else if z == 4 || z == 5 {
        let (v, f) = if z == 4 { inc_spec(r8(s, y), r.f) } else { dec_spec(r8(s, y), r.f) };
        (set_f(set_r8(s, y, v), f), if y == 6 { 12 } else { 4 })
    } else if z == 6 {
        (set_r8(skip(s, 1), y, imm8(s)), if y == 6 { 12 } else { 8 })
    } else {
        block0_z7(y, s)
    }
}

/// Opcodes 0x40-0x7F: LD r, r' and HALT.
pub open spec fn block1(y: u8, z: u8, s: CpuState) -> (CpuState, u32) {
    if y == 6 && z == 6 {
        (CpuState { halted: true, ..s }, 4)
    } else {
        (set_r8(s, y, r8(s, z)), if y == 6 || z == 6 { 8 } else { 4 })
    }
}

/// Opcodes 0x80-0xBF: ALU operation y on A and operand z.
pub open spec fn block2(y: u8, z: u8, s: CpuState) -> (CpuState, u32) {
    let (a, f) = alu_spec(y, s.regs.a, s.regs.f, r8(s, z));
    (set_regs(s, Registers { a, f, ..s.regs }), if z == 6 { 8 } else { 4 })
}

/// x = 3, z = 0: RET cc, LDH (n),A, ADD SP,e, LDH A,(n), LD HL,SP+e.
pub open spec fn block3_z0(y: u8, s: CpuState) -> (CpuState, u32) {
    let r = s.regs;
    if y < 4 {
        if cond(r, y) {
            (jump(pop(s), top(s)), 20)
        } else {
            (s, 8)
        }
    } else {
        let n = imm8(s);
        let s1 = skip(s, 1);
        let (v, f) = sp_offset(r.sp, n);
        if y == 4 {
            (CpuState { mem: s1.mem.write((0xFF00 + n) as u16, r.a), ..s1 }, 12)
        } else if y == 5 {
            (set_regs(s1, Registers { sp: v, f, ..s1.regs }), 16)
        } else if y == 6 {
            (set_regs(s1, Registers { a: s1.mem.read((0xFF00 + n) as u16), ..s1.regs }), 12)
        } else {
            (set_regs(s1, Registers { f, ..with_hl(s1.regs, v) }), 12)
        }
    }
}

/// x = 3, z = 1: POP rr, RET, RETI, JP HL, LD SP,HL.
pub open spec fn block3_z1(y: u8, s: CpuState) -> (CpuState, u32) {
    let p = y / 2;
    if y % 2 == 0 {
        (set_regs(pop(s), set_rp2(pop(s).regs, p, top(s))), 12)
    } else if p == 0 {
        (jump(pop(s), top(s)), 16)
    } else if p == 1 {
        (CpuState { ime: true, ..jump(pop(s), top(s)) }, 16)
    } else if p == 2 {
        (jump(s, hl(s.regs)), 4)
    } else {
        (set_regs(s, Registers { sp: hl(s.regs), ..s.regs }), 8)
    }
}

/// x = 3, z = 2: JP cc, LD (C),A, LD (nn),A, LD A,(C), LD A,(nn).
pub open spec fn block3_z2(y: u8, s: CpuState) -> (CpuState, u32) {
    let r = s.regs;
    if y < 4 {
        if cond(r, y) {
            (jump(skip(s, 2), imm16(s)), 16)
        } else {
            (skip(s, 2), 12)
        }
    } else if y == 4 {
        (CpuState { mem: s.mem.write((0xFF00 + r.c) as u16, r.a), ..s }, 8)
    } else if y == 5 {
        (CpuState { mem: s.mem.write(imm16(s), r.a), ..skip(s, 2) }, 16)
    } else if y == 6 {
        (set_regs(s, Registers { a: s.mem.read((0xFF00 + r.c) as u16), ..r }), 8)
    } else {
        (set_regs(skip(s, 2), Registers { a: s.mem.read(imm16(s)), ..skip(s, 2).regs }), 16)
    }
}

/// CALL to `target` with the return address after the operand.
pub open spec fn call(s: CpuState, target: u16) -> CpuState {
    let s1 = skip(s, 2);
    jump(push(s1, s1.regs.pc), target)
}

/// The CB-prefixed instruction at PC (after the prefix): its effect and its
/// T-cycles without the prefix's 4.
pub open spec fn cb_spec(s: CpuState) -> (CpuState, u32) {
    let op = imm8(s);
    let s1 = skip(s, 1);
    let k = op / 8;
    let reg = op % 8;
    let val = r8(s1, reg);
    let f = s1.regs.f;
    if k < 8 {
        let (v, c) = shift_spec(k, val, has_flag(f, flags::C));
        (set_f(set_r8(s1, reg, v), flag_byte(v == 0, false, false, c)), if reg == 6 { 16 } else { 8 })
    } else if k < 16 {
        let set = (val >> ((k - 8) as u8)) % 2 == 1;
        (
            set_f(s1, set_flag_spec(set_flag_spec(set_flag_spec(f, flags::Z, !set), flags::N, false), flags::H, true)),
            if reg == 6 { 12 } else { 8 },
        )
    } else if k < 24 {
        (set_r8(s1, reg, val & !(1u8 << ((k - 16) as u8))), if reg == 6 { 16 } else { 8 })
    } else {
        (set_r8(s1, reg, val | (1u8 << ((k - 24) as u8))), if reg == 6 { 16 } else { 8 })
    }
}

/// Opcodes 0xC0-0xFF.
pub open spec fn block3(y: u8, z: u8, s: CpuState) -> (CpuState, u32) {
    let r = s.regs;
    let p = y / 2;
    if z == 0 {
        block3_z0(y, s)
    } else if z == 1 {
        block3_z1(y, s)
    } else if z == 2 {
        block3_z2(y, s)
    } else if z == 3 {
        if y == 0 {
            (jump(skip(s, 2), imm16(s)), 16)
        } else if y == 1 {
            let (s1, c) = cb_spec(s);
            (s1, (c + 4) as u32)
        } else if y == 6 {
            (CpuState { ime: false, ..s }, 4)
        } else if y == 7 {
            (CpuState { ime: true, ..s }, 4)
        } else {
            (s, 4)
        }
    } else if z == 4 {
        if y < 4 {
            if cond(r, y) {
                (call(s, imm16(s)), 24)
            } else {
                (skip(s, 2), 12)
            }
        } else {
            (s, 4)
        }
    } else if z == 5 {
        if y % 2 == 0 {
            (push(s, rp2(r, p)), 16)
        } else if p == 0 {
            (call(s, imm16(s)), 24)
        } else {
            (s, 4)
        }
    } else if z == 6 {
        let (a, f) = alu_spec(y, r.a, r.f, imm8(s));
        (set_regs(skip(s, 1), Registers { a, f, ..skip(s, 1).regs }), 8)
    } else {
        (jump(push(s, r.pc), (y * 8) as u16), 16)
    }
}

/// The instruction with opcode `op`, PC already past the opcode.
pub open spec fn execute(op: u8, s: CpuState) -> (CpuState, u32) {
    let x = op / 64;
    let y = (op / 8) % 8;
    let z = op % 8;
    if x == 0 {
        block0(y, z, s)
    } else if x == 1 {
        block1(y, z, s)
    } else if x == 2 {
        block2(y, z, s)
    } else {
        block3(y, z, s)
    }
}

/// One instruction: fetch the opcode at PC and execute it.
pub open spec fn step_spec(s: CpuState) -> (CpuState, u32) {
    execute(imm8(s), skip(s, 1))
}

/// The 8-bit ALU's arithmetic: ADD gives the sum modulo 256 with C set
/// exactly when it passed 255 and Z exactly when the byte is 0; SUB
/// subtracts modulo 256 with C set exactly when `x > a` (a borrow); ADD
/// undoes SUB; CP leaves A and sets the flags SUB would.
pub proof fn lemma_alu_arith(a: u8, f: u8, g: u8, x: u8)
    ensures
        alu_spec(0, a, f, x).0 + (if has_flag(alu_spec(0, a, f, x).1, flags::C) { 256int } else { 0 }) == a + x,
        has_flag(alu_spec(0, a, f, x).1, flags::Z) == (alu_spec(0, a, f, x).0 == 0),
        alu_spec(2, a, f, x).0 - (if has_flag(alu_spec(2, a, f, x).1, flags::C) { 256int } else { 0 }) == a - x,
        has_flag(alu_spec(2, a, f, x).1, flags::Z) == (a == x),
        alu_spec(0, alu_spec(2, a, f, x).0, g, x).0 == a,
        alu_spec(7, a, f, x).0 == a,
        alu_spec(7, a, f, x).1 == alu_spec(2, a, f, x).1,
{
    let c0 = a + x > 255;
    alu::lemma_flag_byte_bits((a + x) % 256 == 0, false, a % 16 + x % 16 > 15, c0);
    alu::lemma_flag_byte_bits((a - x) % 256 == 0, true, a % 16 < x % 16, a < x);
    if c0 {
        assert((a + x) % 256 == a + x - 256);
    } else {
        assert((a + x) % 256 == a + x);
    }
    let d: int = if a < x { a - x + 256 } else { a - x };
    assert((a - x) % 256 == d);
    let sb = alu_spec(2, a, f, x).0;
    assert(sb == d);
    assert((sb + x) % 256 == a) by {
        if a < x {
            assert(sb + x == a + 256);
        } else {
            assert(sb + x == a);
        }
    }
}

/// The CB-prefixed rotates and shifts, stated on the bits of the operand
/// `v` and the incoming carry `c`: the result byte and the carry out.
/// RLC and RRC rotate through bit 7 / bit 0; RL and RR rotate through the
/// carry; SLA shifts in 0; SRA keeps bit 7; SWAP exchanges the nibbles;
/// SRL shifts in 0. The carry out is the bit shifted out (SWAP clears it).
pub proof fn lemma_cb_shifts(v: u8, c: bool)
    ensures
        shift_spec(0, v, c) == ((v << 1u8) | (v >> 7u8), v & 0x80 != 0),
        shift_spec(1, v, c) == ((v >> 1u8) | (v << 7u8), v & 0x01 != 0),
        shift_spec(2, v, c) == ((v << 1u8) | (if c { 1u8 } else { 0u8 }), v & 0x80 != 0),
        shift_spec(3, v, c) == ((v >> 1u8) | (if c { 0x80u8 } else { 0u8 }), v & 0x01 != 0),
        shift_spec(4, v, c) == (v << 1u8, v & 0x80 != 0),
        shift_spec(5, v, c) == ((v >> 1u8) | (v & 0x80), v & 0x01 != 0),
        shift_spec(6, v, c) == ((v >> 4u8) | (v << 4u8), false),
        shift_spec(7, v, c) == (v >> 1u8, v & 0x01 != 0),
{
    assert(((v % 128) * 2 + v / 128) as u8 == (v << 1u8) | (v >> 7u8) && (v >= 128) == (v & 0x80 != 0))
        by (bit_vector);
    assert((v / 2 + (v % 2) * 128) as u8 == (v >> 1u8) | (v << 7u8) && (v % 2 == 1) == (v & 0x01 != 0))
        by (bit_vector);
    assert(((v % 128) * 2 + 1) as u8 == (v << 1u8) | 1u8 && ((v % 128) * 2 + 0) as u8 == (v << 1u8) | 0u8)
        by (bit_vector);
    assert((v / 2 + 128) as u8 == (v >> 1u8) | 0x80u8 && (v / 2 + 0) as u8 == (v >> 1u8) | 0u8)
        by (bit_vector);
    assert(((v % 128) * 2) as u8 == v << 1u8) by (bit_vector);
    assert((v / 2 + (v / 128) * 128) as u8 == (v >> 1u8) | (v & 0x80)) by (bit_vector);
    assert((v / 16 + (v % 16) * 16) as u8 == (v >> 4u8) | (v << 4u8)) by (bit_vector);
    assert((v / 2) as u8 == v >> 1u8) by (bit_vector);
}

/// A word pushed on the stack is the word on top of the stack, and popping
/// it restores SP, when the two stack bytes lie in HRAM or in WRAM.
pub proof fn lemma_push_then_pop(s: CpuState, v: u16)
    requires
        s.mem.wf(),
        (0xFF80 <= wrap16(s.regs.sp - 2) <= 0xFFFD) || (0xC000 <= wrap16(s.regs.sp - 2) <= 0xDFFE),
    ensures
        top(push(s, v)) == v,
        pop(push(s, v)).regs.sp == s.regs.sp,
        pop(push(s, v)).regs.pc == s.regs.pc,
{
    lemma_word_read_after_write(s.mem, wrap16(s.regs.sp - 2), v);
}

/// An interrupt dispatch followed by the RET at its vector returns to the
/// interrupted instruction with SP restored, when the return address is
/// pushed into HRAM: a dispatch and a return undo each other on PC and SP.
pub proof fn lemma_dispatch_then_ret(s: CpuState)
    requires
        s.mem.wf(),
        s.ime,
        pending_spec(s.mem) != 0,
        0xFF80 <= wrap16(s.regs.sp - 2) <= 0xFFFD,
        s.mem.read((0x40 + 8 * highest_priority(pending_spec(s.mem))) as u16) == 0xC9,
    ensures
        ({
            let (m1, ime1, h1, pc1, sp1, n) = service_spec(s.mem, s.ime, s.halted, s.regs.pc, s.regs.sp);
            let s1 = CpuState { regs: Registers { pc: pc1, sp: sp1, ..s.regs }, mem: m1, ime: ime1, halted: h1 };
            let (s2, c) = step_spec(s1);
            &&& n == 20 && c == 16
            &&& s2.regs.pc == s.regs.pc
            &&& s2.regs.sp == s.regs.sp
            &&& !s2.ime
        }),
{
    let m = s.mem;
    let k = highest_priority(pending_spec(m));
    let v = (0x40 + 8 * k) as u16;
    let sp = wrap16(s.regs.sp - 2);
    let pc = s.regs.pc;
    let ma = acknowledge_spec(m, source_mask(k));
    let if_value = (m.read(IF_ADDR) & !source_mask(k)) as u8;
    assert(ma == m.write(IF_ADDR, if_value));
    lemma_high_write_keeps_rom(m, IF_ADDR, if_value, v);
    let low = (pc % 256) as u8;
    let high = (pc / 256) as u8;
    let hi_addr = ((sp + 1) % 0x10000) as u16;
    let mb = ma.write(sp, low);
    lemma_high_write_keeps_rom(ma, sp, low, v);
    let mc = mb.write(hi_addr, high);
    lemma_high_write_keeps_rom(mb, hi_addr, high, v);
    assert(mc == ma.write_word(sp, pc)) by {
        reveal(MmuView::write_word);
    }
    assert(mc.read_word(sp) == pc) by {
        lemma_word_read_after_write(ma, sp, pc);
    }
}

/// Every instruction takes at least 4 T-cycles.
pub proof fn lemma_step_cycles(s: CpuState)
    ensures
        step_spec(s).1 >= 4,
{
    let op = imm8(s);
    let t = skip(s, 1);
    let y = (op / 8) % 8;
    let z = op % 8;
    if op / 64 == 0 {
        assert(block0(y, z, t).1 >= 4);
    } else if op / 64 == 3 {
        assert(block3(y, z, t).1 >= 4);
    }
}

/// Wrapping 16-bit arithmetic is arithmetic modulo 2^16.
pub proof fn lemma_wrap16(a: u16, b: u16)
    ensures
        a.wrapping_add(b) == wrap16(a + b),
        a.wrapping_sub(b) == wrap16(a - b),
        wrap16(wrap16(a + 1) + 1) == wrap16(a + 2),
        wrap16(wrap16(a + b) + 1) == wrap16(a + b + 1),
{
}

impl Cpu {
    /// The part of the machine instructions act on.
    pub open spec fn state(&self) -> CpuState {
        CpuState { regs: self.regs, mem: self.mmu@, ime: self.ime, halted: self.halted }
    }

    /// The devices and the cycle counter are those of `other`.
    pub open spec fn same_devices(&self, other: &Cpu) -> bool {
        &&& self.timer == other.timer
        &&& self.ppu == other.ppu
        &&& self.joypad == other.joypad
        &&& self.apu == other.apu
        &&& self.serial == other.serial
        &&& self.cycles == other.cycles
    }

    fn fetch_byte(&mut self) -> (b: u8)
        requires
            old(self).mmu.wf(),
        ensures
            final(self).mmu.wf(),
            final(self).same_devices(old(self)),
            b == imm8(old(self).state()),
            final(self).state() == skip(old(self).state(), 1),
    {
        let b = self.mmu.read_byte(self.regs.pc);
        proof {
            lemma_wrap16(self.regs.pc, 1);
        }
        self.regs.pc = self.regs.pc.wrapping_add(1);
        b
    }

    fn fetch_word(&mut self) -> (w: u16)
        requires
            old(self).mmu.wf(),
        ensures
            final(self).mmu.wf(),
            final(self).same_devices(old(self)),
            w == imm16(old(self).state()),
            final(self).state() == skip(old(self).state(), 2),
    {
        let lo = self.fetch_byte() as u16;
        let hi = self.fetch_byte() as u16;
        proof {
            crate::bits::lemma_join(hi, lo);
            lemma_wrap16(old(self).regs.pc, 1);
        }
        (hi << 8) | lo
    }

    fn stack_push(&mut self, value: u16)
        requires
            old(self).mmu.wf(),
        ensures
            final(self).mmu.wf(),
            final(self).same_devices(old(self)),
            final(self).state() == push(old(self).state(), value),
    {
        proof {
            lemma_wrap16(self.regs.sp, 2);
        }
        self.regs.sp = self.regs.sp.wrapping_sub(2);
        self.mmu.write_word(self.regs.sp, value);
    }

    fn stack_pop(&mut self) -> (v: u16)
        requires
            old(self).mmu.wf(),
        ensures
            final(self).mmu.wf(),
            final(self).same_devices(old(self)),
            v == top(old(self).state()),
            final(self).state() == pop(old(self).state()),
    {
        let v = self.mmu.read_word(self.regs.sp);
        proof {
            lemma_wrap16(self.regs.sp, 2);
        }
        self.regs.sp = self.regs.sp.wrapping_add(2);
        v
    }

    /// Operand `k` of B, C, D, E, H, L, (HL), A.
    fn read_r8(&self, k: u8) -> (v: u8)
        requires
            self.mmu.wf(),
            k < 8,
        ensures
            v == r8(self.state(), k),
    {
        if k == 0 {
            self.regs.b
        } else if k == 1 {
            self.regs.c
        } else if k == 2 {
            self.regs.d
        } else if k == 3 {
            self.regs.e
        } else if k == 4 {
            self.regs.h
        } else if k == 5 {
            self.regs.l
        } else if k == 6 {
            self.mmu.read_byte(self.regs.hl())
        } else {
            self.regs.a
        }
    }

    fn write_r8(&mut self, k: u8, v: u8)
        requires
            old(self).mmu.wf(),
            k < 8,
        ensures
            final(self).mmu.wf(),
            final(self).same_devices(old(self)),
            final(self).state() == set_r8(old(self).state(), k, v),
    {
        if k == 0 {
            self.regs.b = v;
        } else if k == 1 {
            self.regs.c = v;
        } else if k == 2 {
            self.regs.d = v;
        } else if k == 3 {
            self.regs.e = v;
        } else if k == 4 {
            self.regs.h = v;
        } else if k == 5 {
            self.regs.l = v;
        } else if k == 6 {
            let hl = self.regs.hl();
            self.mmu.write_byte(hl, v);
        } else {
            self.regs.a = v;
        }
    }
}

/// The result and carry of shift or rotate `k` (see `shift_spec`).
fn shift(k: u8, v: u8, c: bool) -> (r: (u8, bool))
    requires
        k < 8,
    ensures
        r == shift_spec(k, v, c),
{
    let cin: u8 = if c { 1 } else { 0 };
    if k == 0 {
        ((v % 128) * 2 + v / 128, v >= 128)
    } else if k == 1 {
        (v / 2 + (v % 2) * 128, v % 2 == 1)
    } else if k == 2 {
        ((v % 128) * 2 + cin, v >= 128)
    } else if k == 3 {
        (v / 2 + cin * 128, v % 2 == 1)
    } else if k == 4 {
        ((v % 128) * 2, v >= 128)
    } else if k == 5 {
        (v / 2 + (v / 128) * 128, v % 2 == 1)
    } else if k == 6 {
        (v / 16 + (v % 16) * 16, false)
    } else {
        (v / 2, v % 2 == 1)
    }
}

/// F with the bits of `mask` set or cleared, lower nibble zero.
fn flag_set(f: u8, mask: u8, value: bool) -> (r: u8)
    ensures
        r == set_flag_spec(f, mask, value),
{
    if value {
        (f | mask) & 0xF0
    } else {
        (f & !mask) & 0xF0
    }
}

/// A and F after DAA.
fn daa_value(a: u8, f: u8) -> (r: (u8, u8))
    ensures
        r == daa_spec(a, f),
{
    if f & flags::N == 0 {
        let a1 = if f & flags::H != 0 || a % 16 > 9 { a.wrapping_add(0x06) } else { a };
        let carry = f & flags::C != 0 || a1 > 0x99;
        let a2 = if carry { a1.wrapping_add(0x60) } else { a1 };
        let f1 = if carry { flag_set(f, flags::C, true) } else { f };
        (a2, flag_set(flag_set(f1, flags::Z, a2 == 0), flags::H, false))
    } else {
        let a1 = if f & flags::H != 0 { a.wrapping_sub(0x06) } else { a };
        let a2 = if f & flags::C != 0 { a1.wrapping_sub(0x60) } else { a1 };
        (a2, flag_set(flag_set(f, flags::Z, a2 == 0), flags::H, false))
    }
}

/// Whether condition `cc` (NZ, Z, NC, C) holds.
pub(crate) fn check_cond(regs: &Registers, cc: u8) -> (r: bool)
    ensures
        r == cond(*regs, cc),
{
    if cc == 0 {
        !regs.flag_z()
    } else if cc == 1 {
        regs.flag_z()
    } else if cc == 2 {
        !regs.flag_c()
    } else {
        regs.flag_c()
    }
}

/// Register pair `p` of BC, DE, HL, SP.
pub(crate) fn get_rp(regs: &Registers, p: u8) -> (v: u16)
    ensures
        v == rp(*regs, p),
{
    if p == 0 {
        regs.bc()
    } else if p == 1 {
        regs.de()
    } else if p == 2 {
        regs.hl()
    } else {
        regs.sp
    }
}

/// Set register pair `p` of BC, DE, HL, SP.
pub(crate) fn put_rp(regs: &mut Registers, p: u8, v: u16)
    ensures
        *final(regs) == set_rp(*old(regs), p, v),
{
    if p == 0 {
        regs.set_bc(v);
    } else if p == 1 {
        regs.set_de(v);
    } else if p == 2 {
        regs.set_hl(v);
    } else {
        regs.sp = v;
    }
}

/// Register pair `p` of BC, DE, HL, AF.
pub(crate) fn get_rp2(regs: &Registers, p: u8) -> (v: u16)
    ensures
        v == rp2(*regs, p),
{
    if p == 3 {
        regs.af()
    } else {
        get_rp(regs, p)
    }
}

/// Set register pair `p` of BC, DE, HL, AF (F keeps its lower nibble clear).
pub(crate) fn put_rp2(regs: &mut Registers, p: u8, v: u16)
    ensures
        *final(regs) == set_rp2(*old(regs), p, v),
{
    if p == 3 {
        regs.set_af(v);
    } else {
        put_rp(regs, p, v);
    }
}

/// ALU operation `op` on A and `x`.
pub(crate) fn alu_apply(regs: &mut Registers, op: u8, x: u8)
    requires
        op < 8,
    ensures
        *final(regs) == (Registers {
            a: alu_spec(op, old(regs).a, old(regs).f, x).0,
            f: alu_spec(op, old(regs).a, old(regs).f, x).1,
            ..*old(regs)
        }),
{
    let a = regs.a;
    let r = if op == 0 {
        alu::add(a, x)
    } else if op == 1 {
        alu::adc(a, x, regs.flag_c())
    } else if op == 2 {
        alu::sub(a, x)
    } else if op == 3 {
        alu::sbc(a, x, regs.flag_c())
    } else if op == 4 {
        alu::and(a, x)
    } else if op == 5 {
        alu::xor(a, x)
    } else if op == 6 {
        alu::or(a, x)
    } else {
        alu::cp(a, x)
    };
    regs.a = r.value;
    regs.f = r.flags;
}

/// `pc` moved by the signed offset `e`.
pub(crate) fn jump_target(pc: u16, e: u8) -> (r: u16)
    ensures
        r == wrap16(pc + rel(e)),
{
    let off: u16 = if e < 128 { e as u16 } else { e as u16 + 0xFF00 };
    proof {
        lemma_wrap16(pc, off);
        if e >= 128 {
            assert(pc + off == (pc + rel(e)) + 0x10000);
        }
    }
    pc.wrapping_add(off)
}

impl Cpu {
    /// ADD HL, value.
    fn add_hl(&mut self, value: u16)
        ensures
            *final(self) == (Cpu { regs: add_hl_spec(old(self).regs, value), ..*old(self) }),
    {
        let hl = self.regs.hl();
        let result = hl.wrapping_add(value);
        proof {
            lemma_wrap16(hl, value);
            assert((hl & 0x0FFF) == hl % 0x1000 && (value & 0x0FFF) == value % 0x1000) by {
                crate::bits::lemma_u16(hl);
                crate::bits::lemma_u16(value);
            }
        }
        self.regs.set_flag_n(false);
        self.regs.set_flag_h((hl & 0x0FFF) + (value & 0x0FFF) > 0x0FFF);
        self.regs.set_flag_c((hl as u32) + (value as u32) > 0xFFFF);
        self.regs.set_hl(result);
    }

    /// SP plus the signed offset `e`; F gets H and C of the low byte, Z and N clear.
    fn add_sp_r8(&mut self, e: u8) -> (r: u16)
        ensures
            r == sp_offset(old(self).regs.sp, e).0,
            *final(self) == (Cpu {
                regs: Registers { f: sp_offset(old(self).regs.sp, e).1, ..old(self).regs },
                ..*old(self)
            }),
    {
        let sp = self.regs.sp;
        let off: u16 = if e < 128 { e as u16 } else { e as u16 + 0xFF00 };
        let result = sp.wrapping_add(off);
        proof {
            lemma_wrap16(sp, off);
            assert(wrap16(sp + off) == wrap16(sp + rel(e))) by {
                if e >= 128 {
                    assert(sp + off == (sp + rel(e)) + 0x10000);
                }
            }
        }
        self.regs.f = make_flags(false, false, sp % 16 + (e % 16) as u16 > 15, sp % 256 + e as u16 > 255);
        result
    }

    /// DAA: decimal adjust A after a BCD addition or subtraction.
    fn daa(&mut self)
        ensures
            *final(self) == (Cpu {
                regs: Registers {
                    a: daa_spec(old(self).regs.a, old(self).regs.f).0,
                    f: daa_spec(old(self).regs.a, old(self).regs.f).1,
                    ..old(self).regs
                },
                ..*old(self)
            }),
    {
        let (a, f) = daa_value(self.regs.a, self.regs.f);
        self.regs.a = a;
        self.regs.f = f;
    }

}

impl Cpu {
    /// NOP, LD (nn),SP, STOP, JR, JR cc.
    fn exec_block0_z0(&mut self, y: u8) -> (c: u32)
        requires
            old(self).mmu.wf(),
            y < 8,
        ensures
            final(self).mmu.wf(),
            final(self).same_devices(old(self)),
            (final(self).state(), c) == block0_z0(y, old(self).state()),
    {
        if y == 0 {
            4
        } else if y == 1 {
            let nn = self.fetch_word();
            let sp = self.regs.sp;
            self.mmu.write_word(nn, sp);
            20
        } else if y == 2 {
            let _ = self.fetch_byte();
            4
        } else {
            let e = self.fetch_byte();
            if y == 3 || check_cond(&self.regs, y - 4) {
                self.regs.pc = jump_target(self.regs.pc, e);
                12
            } else {
                8
            }
        }
    }

    /// LD (rr),A and LD A,(rr).
    fn exec_block0_z2(&mut self, y: u8) -> (c: u32)
        requires
            old(self).mmu.wf(),
            y < 8,
        ensures
            final(self).mmu.wf(),
            final(self).same_devices(old(self)),
            (final(self).state(), c) == block0_z2(y, old(self).state()),
    {
        let p = y / 2;
        let addr = if p == 0 {
            self.regs.bc()
        } else if p == 1 {
            self.regs.de()
        } else {
            self.regs.hl()
        };
        if y % 2 == 0 {
            let a = self.regs.a;
            self.mmu.write_byte(addr, a);
        } else {
            self.regs.a = self.mmu.read_byte(addr);
        }
        proof {
            lemma_wrap16(addr, 1);
        }
        if p == 2 {
            self.regs.set_hl(addr.wrapping_add(1));
        } else if p == 3 {
            self.regs.set_hl(addr.wrapping_sub(1));
        }
        8
    }

    /// RLCA, RRCA, RLA, RRA, DAA, CPL, SCF, CCF.
    fn exec_block0_z7(&mut self, y: u8) -> (c: u32)
        requires
            old(self).mmu.wf(),
            y < 8,
        ensures
            final(self).mmu.wf(),
            final(self).same_devices(old(self)),
            (final(self).state(), c) == block0_z7(y, old(self).state()),
    {
        if y < 4 {
            let (v, c) = shift(y, self.regs.a, self.regs.flag_c());
            self.regs.a = v;
            self.regs.f = make_flags(false, false, false, c);
        } else if y == 4 {
            self.daa();
        } else if y == 5 {
            self.regs.a = !self.regs.a;
            self.regs.set_flag_n(true);
            self.regs.set_flag_h(true);
        } else {
            let c = if y == 6 { true } else { !self.regs.flag_c() };
            self.regs.set_flag_n(false);
            self.regs.set_flag_h(false);
            self.regs.set_flag_c(c);
        }
        4
    }

    /// Opcodes 0x00-0x3F.
    fn exec_block0(&mut self, y: u8, z: u8) -> (c: u32)
        requires
            old(self).mmu.wf(),
            y < 8,
            z < 8,
        ensures
            final(self).mmu.wf(),
            final(self).same_devices(old(self)),
            (final(self).state(), c) == block0(y, z, old(self).state()),
    {
        let p = y / 2;
        if z == 0 {
            self.exec_block0_z0(y)
        } else if z == 1 {
            if y % 2 == 0 {
                let nn = self.fetch_word();
                put_rp(&mut self.regs, p, nn);
                12
            } else {
                let v = get_rp(&self.regs, p);
                self.add_hl(v);
                8
            }
        } else if z == 2 {
            self.exec_block0_z2(y)
        } else if z == 3 {
            let v = get_rp(&self.regs, p);
            proof {
                lemma_wrap16(v, 1);
            }
            let v2 = if y % 2 == 0 { v.wrapping_add(1) } else { v.wrapping_sub(1) };
            put_rp(&mut self.regs, p, v2);
            8
        } else if z == 4 || z == 5 {
            let v = self.read_r8(y);
            let r = if z == 4 { alu::inc(v, self.regs.f) } else { alu::dec(v, self.regs.f) };
            self.write_r8(y, r.value);
            self.regs.f = r.flags;
            if y == 6 { 12 } else { 4 }
        } else if z == 6 {
            let n = self.fetch_byte();
            self.write_r8(y, n);
            if y == 6 { 12 } else { 8 }
        } else {
            self.exec_block0_z7(y)
        }
    }

    /// LD r, r' and HALT.
    fn exec_block1(&mut self, y: u8, z: u8) -> (c: u32)
        requires
            old(self).mmu.wf(),
            y < 8,
            z < 8,
        ensures
            final(self).mmu.wf(),
            final(self).same_devices(old(self)),
            (final(self).state(), c) == block1(y, z, old(self).state()),
    {
        if y == 6 && z == 6 {
            self.halted = true;
            4
        } else {
            let v = self.read_r8(z);
            self.write_r8(y, v);
            if y == 6 || z == 6 { 8 } else { 4 }
        }
    }

    /// ALU operation y on A and operand z.
    fn exec_block2(&mut self, y: u8, z: u8) -> (c: u32)
        requires
            old(self).mmu.wf(),
            y < 8,
            z < 8,
        ensures
            final(self).mmu.wf(),
            final(self).same_devices(old(self)),
            (final(self).state(), c) == block2(y, z, old(self).state()),
    {
        let v = self.read_r8(z);
        alu_apply(&mut self.regs, y, v);
        if z == 6 { 8 } else { 4 }
    }

    /// RET cc, LDH (n),A, ADD SP,e, LDH A,(n), LD HL,SP+e.
    fn exec_block3_z0(&mut self, y: u8) -> (c: u32)
        requires
            old(self).mmu.wf(),
            y < 8,
        ensures
            final(self).mmu.wf(),
            final(self).same_devices(old(self)),
            (final(self).state(), c) == block3_z0(y, old(self).state()),
    {
        if y < 4 {
            if check_cond(&self.regs, y) {
                let a = self.stack_pop();
                self.regs.pc = a;
                20
            } else {
                8
            }
        } else {
            let n = self.fetch_byte();
            if y == 4 {
                let a = self.regs.a;
                self.mmu.write_byte(0xFF00 + n as u16, a);
                12
            } else if y == 6 {
                self.regs.a = self.mmu.read_byte(0xFF00 + n as u16);
                12
            } else if y == 5 {
                let v = self.add_sp_r8(n);
                self.regs.sp = v;
                16
            } else {
                let v = self.add_sp_r8(n);
                self.regs.set_hl(v);
                12
            }
        }
    }

    /// POP rr, RET, RETI, JP HL, LD SP,HL.
    fn exec_block3_z1(&mut self, y: u8) -> (c: u32)
        requires
            old(self).mmu.wf(),
            y < 8,
        ensures
            final(self).mmu.wf(),
            final(self).same_devices(old(self)),
            (final(self).state(), c) == block3_z1(y, old(self).state()),
    {
        let p = y / 2;
        if y % 2 == 0 {
            let v = self.stack_pop();
            put_rp2(&mut self.regs, p, v);
            12
        } else if p == 0 {
            let a = self.stack_pop();
            self.regs.pc = a;
            16
        } else if p == 1 {
            let a = self.stack_pop();
            self.regs.pc = a;
            self.ime = true;
            16
        } else if p == 2 {
            self.regs.pc = self.regs.hl();
            4
        } else {
            self.regs.sp = self.regs.hl();
            8
        }
    }

    /// JP cc, LD (C),A, LD (nn),A, LD A,(C), LD A,(nn).
    fn exec_block3_z2(&mut self, y: u8) -> (c: u32)
        requires
            old(self).mmu.wf(),
            y < 8,
        ensures
            final(self).mmu.wf(),
            final(self).same_devices(old(self)),
            (final(self).state(), c) == block3_z2(y, old(self).state()),
    {
        if y < 4 {
            let nn = self.fetch_word();
            if check_cond(&self.regs, y) {
                self.regs.pc = nn;
                16
            } else {
                12
            }
        } else if y == 4 {
            let addr = 0xFF00 + self.regs.c as u16;
            let a = self.regs.a;
            self.mmu.write_byte(addr, a);
            8
        } else if y == 5 {
            let nn = self.fetch_word();
            let a = self.regs.a;
            self.mmu.write_byte(nn, a);
            16
        } else if y == 6 {
            self.regs.a = self.mmu.read_byte(0xFF00 + self.regs.c as u16);
            8
        } else {
            let nn = self.fetch_word();
            self.regs.a = self.mmu.read_byte(nn);
            16
        }
    }

    /// Decode and execute one CB-prefixed instruction: shifts and rotates,
    /// BIT, RES and SET on operand `op % 8`. Returns its T-cycles without
    /// the prefix's 4.
    fn cb_prefix(&mut self) -> (c: u32)
        requires
            old(self).mmu.wf(),
        ensures
            final(self).mmu.wf(),
            final(self).same_devices(old(self)),
            (final(self).state(), c) == cb_spec(old(self).state()),
    {
        let op = self.fetch_byte();
        let reg = op % 8;
        let val = self.read_r8(reg);
        let k = op / 8;
        if k < 8 {
            let (v, c) = shift(k, val, self.regs.flag_c());
            self.write_r8(reg, v);
            self.regs.f = make_flags(v == 0, false, false, c);
            if reg == 6 { 16 } else { 8 }
        } else if k < 16 {
            let set = (val >> (k - 8)) % 2 == 1;
            self.regs.set_flag_z(!set);
            self.regs.set_flag_n(false);
            self.regs.set_flag_h(true);
            if reg == 6 { 12 } else { 8 }
        } else if k < 24 {
            self.write_r8(reg, val & !(1u8 << (k - 16)));
            if reg == 6 { 16 } else { 8 }
        } else {
            self.write_r8(reg, val | (1u8 << (k - 24)));
            if reg == 6 { 16 } else { 8 }
        }
    }

    /// Opcodes 0xC0-0xFF.
    fn exec_block3(&mut self, y: u8, z: u8) -> (c: u32)
        requires
            old(self).mmu.wf(),
            y < 8,
            z < 8,
        ensures
            final(self).mmu.wf(),
            final(self).same_devices(old(self)),
            (final(self).state(), c) == block3(y, z, old(self).state()),
    {
        let p = y / 2;
        if z == 0 {
            self.exec_block3_z0(y)
        } else if z == 1 {
            self.exec_block3_z1(y)
        } else if z == 2 {
            self.exec_block3_z2(y)
        } else if z == 3 {
            if y == 0 {
                let nn = self.fetch_word();
                self.regs.pc = nn;
                16
            } else if y == 1 {
                let c = self.cb_prefix();
                c + 4
            } else if y == 6 {
                self.ime = false;
                4
            } else if y == 7 {
                self.ime = true;
                4
            } else {
                4
            }
        } else if z == 4 {
            if y < 4 {
                let nn = self.fetch_word();
                if check_cond(&self.regs, y) {
                    let r = self.regs.pc;
                    self.stack_push(r);
                    self.regs.pc = nn;
                    24
                } else {
                    12
                }
            } else {
                4
            }
        } else if z == 5 {
            if y % 2 == 0 {
                let v = get_rp2(&self.regs, p);
                self.stack_push(v);
                16
            } else if p == 0 {
                let nn = self.fetch_word();
                let r = self.regs.pc;
                self.stack_push(r);
                self.regs.pc = nn;
                24
            } else {
                4
            }
        } else if z == 6 {
            let n = self.fetch_byte();
            alu_apply(&mut self.regs, y, n);
            8
        } else {
            let r = self.regs.pc;
            self.stack_push(r);
            self.regs.pc = y as u16 * 8;
            16
        }
    }

    /// Fetch, decode and execute one instruction; returns its T-cycles.
    pub fn step(&mut self) -> (c: u32)
        requires
            old(self).mmu.wf(),
        ensures
            final(self).mmu.wf(),
            final(self).same_devices(old(self)),
            (final(self).state(), c) == step_spec(old(self).state()),
    {
        let op = self.fetch_byte();
        let x = op / 64;
        let y = (op / 8) % 8;
        let z = op % 8;
        if x == 0 {
            self.exec_block0(y, z)
        } else if x == 1 {
            self.exec_block1(y, z)
        } else if x == 2 {
            self.exec_block2(y, z)
        } else {
            self.exec_block3(y, z)
        }
    }
}

} // verus!
