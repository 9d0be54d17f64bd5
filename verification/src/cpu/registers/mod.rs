//! The SM83 register file: eight 8-bit registers paired as AF, BC, DE, HL,
//! plus SP and PC. The lower nibble of F is always zero.

pub mod flags;

use vstd::prelude::*;

verus! {

/// High byte of a 16-bit word.
pub open spec fn hi(w: u16) -> u8 {
    (w / 256) as u8
}

/// Low byte of a 16-bit word.
pub open spec fn lo(w: u16) -> u8 {
    (w % 256) as u8
}

/// The 16-bit word made of a high and a low byte.
pub open spec fn word(h: u8, l: u8) -> u16 {
    (h * 256 + l) as u16
}

/// Whether bit `mask` (a single-bit mask) is set in `f`.
pub open spec fn has_flag(f: u8, mask: u8) -> bool {
    f & mask != 0
}

#[derive(Debug, Clone, Copy, PartialEq, Eq)]
pub struct Registers {
    pub a: u8,
    pub f: u8,
    pub b: u8,
    pub c: u8,
    pub d: u8,
    pub e: u8,
    pub h: u8,
    pub l: u8,
    pub sp: u16,
    pub pc: u16,
}

/// Splitting a word into bytes and joining them again gives the word back.
pub proof fn lemma_word_split(v: u16)
    ensures
        word(hi(v), lo(v)) == v,
        hi(word(hi(v), lo(v))) == hi(v),
        lo(word(hi(v), lo(v))) == lo(v),
{
}

/// Joining two bytes and splitting the word gives the two bytes back.
pub proof fn lemma_word_join(h: u8, l: u8)
    ensures
        hi(word(h, l)) == h,
        lo(word(h, l)) == l,
{
}

proof fn lemma_join_bits(h: u8, l: u8)
    ensures
        ((h as u16) << 8u16) | (l as u16) == word(h, l),
{
    crate::bits::lemma_join(h as u16, l as u16);
}

proof fn lemma_split_bits(v: u16)
    ensures
        (v >> 8u16) as u8 == hi(v),
        v as u8 == lo(v),
{
    crate::bits::lemma_u16(v);
}

impl Registers {
    /// Power-on state of the DMG after the boot ROM hands over to the cartridge.
    pub fn new() -> (r: Self)
        ensures
            r == Registers::new_spec(),
    {
        Registers {
            a: 0x01,
            f: 0xB0,
            b: 0x00,
            c: 0x13,
            d: 0x00,
            e: 0xD8,
            h: 0x01,
            l: 0x4D,
            sp: 0xFFFE,
            pc: 0x0100,
        }
    }

    /// AF: A in the high byte, F with its lower nibble cleared in the low byte.
    pub fn af(&self) -> (r: u16)
        ensures
            r == word(self.a, self.f & 0xF0),
    {
        proof {
            lemma_join_bits(self.a, self.f & 0xF0);
            let f = self.f;
            crate::bits::lemma_u8(f);
        }
        ((self.a as u16) << 8) | (self.f as u16 & 0xF0)
    }

    /// Set AF; the lower nibble of F stays zero.
    pub fn set_af(&mut self, value: u16)
        ensures
            final(self).a == hi(value),
            final(self).f == lo(value) & 0xF0,
            final(self).b == old(self).b && final(self).c == old(self).c,
            final(self).d == old(self).d && final(self).e == old(self).e,
            final(self).h == old(self).h && final(self).l == old(self).l,
            final(self).sp == old(self).sp && final(self).pc == old(self).pc,
    {
        proof {
            lemma_split_bits(value);
        }
        self.a = (value >> 8) as u8;
        self.f = (value as u8) & 0xF0;
    }

    pub fn bc(&self) -> (r: u16)
        ensures
            r == word(self.b, self.c),
    {
        proof {
            lemma_join_bits(self.b, self.c);
        }
        ((self.b as u16) << 8) | self.c as u16
    }

    pub fn set_bc(&mut self, value: u16)
        ensures
            final(self).b == hi(value) && final(self).c == lo(value),
            final(self).a == old(self).a && final(self).f == old(self).f,
            final(self).d == old(self).d && final(self).e == old(self).e,
            final(self).h == old(self).h && final(self).l == old(self).l,
            final(self).sp == old(self).sp && final(self).pc == old(self).pc,
    {
        proof {
            lemma_split_bits(value);
        }
        self.b = (value >> 8) as u8;
        self.c = value as u8;
    }

    pub fn de(&self) -> (r: u16)
        ensures
            r == word(self.d, self.e),
    {
        proof {
            lemma_join_bits(self.d, self.e);
        }
        ((self.d as u16) << 8) | self.e as u16
    }

    pub fn set_de(&mut self, value: u16)
        ensures
            final(self).d == hi(value) && final(self).e == lo(value),
            final(self).a == old(self).a && final(self).f == old(self).f,
            final(self).b == old(self).b && final(self).c == old(self).c,
            final(self).h == old(self).h && final(self).l == old(self).l,
            final(self).sp == old(self).sp && final(self).pc == old(self).pc,
    {
        proof {
            lemma_split_bits(value);
        }
        self.d = (value >> 8) as u8;
        self.e = value as u8;
    }

    pub fn hl(&self) -> (r: u16)
        ensures
            r == word(self.h, self.l),
    {
        proof {
            lemma_join_bits(self.h, self.l);
        }
        ((self.h as u16) << 8) | self.l as u16
    }

    pub fn set_hl(&mut self, value: u16)
        ensures
            final(self).h == hi(value) && final(self).l == lo(value),
            final(self).a == old(self).a && final(self).f == old(self).f,
            final(self).b == old(self).b && final(self).c == old(self).c,
            final(self).d == old(self).d && final(self).e == old(self).e,
            final(self).sp == old(self).sp && final(self).pc == old(self).pc,
    {
        proof {
            lemma_split_bits(value);
        }
        self.h = (value >> 8) as u8;
        self.l = value as u8;
    }

    pub fn flag_z(&self) -> (r: bool)
        ensures
            r == has_flag(self.f, flags::Z),
    {
        self.f & flags::Z != 0
    }

    pub fn flag_n(&self) -> (r: bool)
        ensures
            r == has_flag(self.f, flags::N),
    {
        self.f & flags::N != 0
    }

    pub fn flag_h(&self) -> (r: bool)
        ensures
            r == has_flag(self.f, flags::H),
    {
        self.f & flags::H != 0
    }

    pub fn flag_c(&self) -> (r: bool)
        ensures
            r == has_flag(self.f, flags::C),
    {
        self.f & flags::C != 0
    }

    pub fn set_flag_z(&mut self, v: bool)
        ensures
            *final(self) == (Registers { f: set_flag_spec(old(self).f, flags::Z, v), ..*old(self) }),
    {
        self.set_flag(flags::Z, v);
    }

    pub fn set_flag_n(&mut self, v: bool)
        ensures
            *final(self) == (Registers { f: set_flag_spec(old(self).f, flags::N, v), ..*old(self) }),
    {
        self.set_flag(flags::N, v);
    }

    pub fn set_flag_h(&mut self, v: bool)
        ensures
            *final(self) == (Registers { f: set_flag_spec(old(self).f, flags::H, v), ..*old(self) }),
    {
        self.set_flag(flags::H, v);
    }

    pub fn set_flag_c(&mut self, v: bool)
        ensures
            *final(self) == (Registers { f: set_flag_spec(old(self).f, flags::C, v), ..*old(self) }),
    {
        self.set_flag(flags::C, v);
    }

    /// Set or clear the flag bits of `mask` in F, keeping the lower nibble zero.
    pub fn set_flag(&mut self, mask: u8, value: bool)
        ensures
            *final(self) == (Registers { f: set_flag_spec(old(self).f, mask, value), ..*old(self) }),
    {
        if value {
            self.f = self.f | mask;
        } else {
            self.f = self.f & !mask;
        }
        self.f = self.f & 0xF0;
    }
}

/// F after setting (`value`) or clearing the bits of `mask`, lower nibble cleared.
pub open spec fn set_flag_spec(f: u8, mask: u8, value: bool) -> u8 {
    if value {
        (f | mask) & 0xF0
    } else {
        (f & !mask) & 0xF0
    }
}

/// A flag that was set reads back set, a cleared one reads back clear, the
/// other three flags keep their value, and the lower nibble of F is zero.
pub proof fn lemma_set_flag_reads_back(f: u8, v: bool)
    ensures
        has_flag(set_flag_spec(f, flags::Z, v), flags::Z) == v,
        has_flag(set_flag_spec(f, flags::N, v), flags::N) == v,
        has_flag(set_flag_spec(f, flags::H, v), flags::H) == v,
        has_flag(set_flag_spec(f, flags::C, v), flags::C) == v,
        has_flag(set_flag_spec(f, flags::Z, v), flags::C) == has_flag(f, flags::C),
        has_flag(set_flag_spec(f, flags::C, v), flags::Z) == has_flag(f, flags::Z),
        has_flag(set_flag_spec(f, flags::N, v), flags::H) == has_flag(f, flags::H),
        has_flag(set_flag_spec(f, flags::H, v), flags::N) == has_flag(f, flags::N),
        has_flag(set_flag_spec(f, flags::Z, v), flags::N) == has_flag(f, flags::N),
        has_flag(set_flag_spec(f, flags::Z, v), flags::H) == has_flag(f, flags::H),
        has_flag(set_flag_spec(f, flags::N, v), flags::Z) == has_flag(f, flags::Z),
        has_flag(set_flag_spec(f, flags::N, v), flags::C) == has_flag(f, flags::C),
        has_flag(set_flag_spec(f, flags::H, v), flags::Z) == has_flag(f, flags::Z),
        has_flag(set_flag_spec(f, flags::H, v), flags::C) == has_flag(f, flags::C),
        has_flag(set_flag_spec(f, flags::C, v), flags::N) == has_flag(f, flags::N),
        has_flag(set_flag_spec(f, flags::C, v), flags::H) == has_flag(f, flags::H),
        set_flag_spec(f, flags::Z, v) & 0x0F == 0,
        set_flag_spec(f, flags::N, v) & 0x0F == 0,
        set_flag_spec(f, flags::H, v) & 0x0F == 0,
        set_flag_spec(f, flags::C, v) & 0x0F == 0,
{
    lemma_flag_bits_or(f);
    lemma_flag_bits_clear(f);
    if v {
    } else {
    }
}

proof fn lemma_flag_bits_or(f: u8)
    by (bit_vector)
    ensures
        ((f | 0x80u8) & 0xF0u8) & 0x80u8 != 0,
        ((f | 0x40u8) & 0xF0u8) & 0x40u8 != 0,
        ((f | 0x20u8) & 0xF0u8) & 0x20u8 != 0,
        ((f | 0x10u8) & 0xF0u8) & 0x10u8 != 0,
        (((f | 0x80u8) & 0xF0u8) & 0x40u8 != 0) == (f & 0x40u8 != 0),
        (((f | 0x80u8) & 0xF0u8) & 0x20u8 != 0) == (f & 0x20u8 != 0),
        (((f | 0x80u8) & 0xF0u8) & 0x10u8 != 0) == (f & 0x10u8 != 0),
        (((f | 0x40u8) & 0xF0u8) & 0x80u8 != 0) == (f & 0x80u8 != 0),
        (((f | 0x40u8) & 0xF0u8) & 0x20u8 != 0) == (f & 0x20u8 != 0),
        (((f | 0x40u8) & 0xF0u8) & 0x10u8 != 0) == (f & 0x10u8 != 0),
        (((f | 0x20u8) & 0xF0u8) & 0x80u8 != 0) == (f & 0x80u8 != 0),
        (((f | 0x20u8) & 0xF0u8) & 0x40u8 != 0) == (f & 0x40u8 != 0),
        (((f | 0x20u8) & 0xF0u8) & 0x10u8 != 0) == (f & 0x10u8 != 0),
        (((f | 0x10u8) & 0xF0u8) & 0x80u8 != 0) == (f & 0x80u8 != 0),
        (((f | 0x10u8) & 0xF0u8) & 0x40u8 != 0) == (f & 0x40u8 != 0),
        (((f | 0x10u8) & 0xF0u8) & 0x20u8 != 0) == (f & 0x20u8 != 0),
        ((f | 0x80u8) & 0xF0u8) & 0x0Fu8 == 0,
        ((f | 0x40u8) & 0xF0u8) & 0x0Fu8 == 0,
        ((f | 0x20u8) & 0xF0u8) & 0x0Fu8 == 0,
        ((f | 0x10u8) & 0xF0u8) & 0x0Fu8 == 0,
{
}

proof fn lemma_flag_bits_clear(f: u8)
    by (bit_vector)
    ensures
        ((f & !0x80u8) & 0xF0u8) & 0x80u8 == 0,
        ((f & !0x40u8) & 0xF0u8) & 0x40u8 == 0,
        ((f & !0x20u8) & 0xF0u8) & 0x20u8 == 0,
        ((f & !0x10u8) & 0xF0u8) & 0x10u8 == 0,
        (((f & !0x80u8) & 0xF0u8) & 0x40u8 != 0) == (f & 0x40u8 != 0),
        (((f & !0x80u8) & 0xF0u8) & 0x20u8 != 0) == (f & 0x20u8 != 0),
        (((f & !0x80u8) & 0xF0u8) & 0x10u8 != 0) == (f & 0x10u8 != 0),
        (((f & !0x40u8) & 0xF0u8) & 0x80u8 != 0) == (f & 0x80u8 != 0),
        (((f & !0x40u8) & 0xF0u8) & 0x20u8 != 0) == (f & 0x20u8 != 0),
        (((f & !0x40u8) & 0xF0u8) & 0x10u8 != 0) == (f & 0x10u8 != 0),
        (((f & !0x20u8) & 0xF0u8) & 0x80u8 != 0) == (f & 0x80u8 != 0),
        (((f & !0x20u8) & 0xF0u8) & 0x40u8 != 0) == (f & 0x40u8 != 0),
        (((f & !0x20u8) & 0xF0u8) & 0x10u8 != 0) == (f & 0x10u8 != 0),
        (((f & !0x10u8) & 0xF0u8) & 0x80u8 != 0) == (f & 0x80u8 != 0),
        (((f & !0x10u8) & 0xF0u8) & 0x40u8 != 0) == (f & 0x40u8 != 0),
        (((f & !0x10u8) & 0xF0u8) & 0x20u8 != 0) == (f & 0x20u8 != 0),
        ((f & !0x80u8) & 0xF0u8) & 0x0Fu8 == 0,
        ((f & !0x40u8) & 0xF0u8) & 0x0Fu8 == 0,
        ((f & !0x20u8) & 0xF0u8) & 0x0Fu8 == 0,
        ((f & !0x10u8) & 0xF0u8) & 0x0Fu8 == 0,
{
}

impl Default for Registers {
    fn default() -> (r: Self)
        ensures
            r == Registers::new_spec(),
    {
        Self::new()
    }
}

impl Registers {
    /// The power-on register values as a spec value.
    pub open spec fn new_spec() -> Registers {
        Registers {
            a: 0x01,
            f: 0xB0,
            b: 0x00,
            c: 0x13,
            d: 0x00,
            e: 0xD8,
            h: 0x01,
            l: 0x4D,
            sp: 0xFFFE,
            pc: 0x0100,
        }
    }
}

} // verus!
