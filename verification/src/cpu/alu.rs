//! Arithmetic Logic Unit: pure functions from operands (and the old flags
//! where needed) to a result byte and the new flag byte.

use super::registers::flags;
use vstd::prelude::*;

verus! {

pub struct AluResult {
    pub value: u8,
    pub flags: u8,
}

/// The flag byte with Z, N, H, C set as given and the lower nibble zero.
pub open spec fn flag_byte(z: bool, n: bool, h: bool, c: bool) -> u8 {
    ((if z { 0x80int } else { 0 }) + (if n { 0x40int } else { 0 }) + (if h { 0x20int } else { 0 })
        + (if c { 0x10int } else { 0 })) as u8
}

/// Reading the four flags back out of a flag byte gives the four booleans, and
/// its lower nibble is zero.
pub proof fn lemma_flag_byte_bits(z: bool, n: bool, h: bool, c: bool)
    ensures
        (flag_byte(z, n, h, c) & flags::Z != 0) == z,
        (flag_byte(z, n, h, c) & flags::N != 0) == n,
        (flag_byte(z, n, h, c) & flags::H != 0) == h,
        (flag_byte(z, n, h, c) & flags::C != 0) == c,
        flag_byte(z, n, h, c) & 0x0F == 0,
{
    let f = flag_byte(z, n, h, c);
    let zz: u8 = if z { 0x80 } else { 0 };
    let nn: u8 = if n { 0x40 } else { 0 };
    let hh: u8 = if h { 0x20 } else { 0 };
    let cc: u8 = if c { 0x10 } else { 0 };
    assert(f == zz + nn + hh + cc);
    assert((zz == 0x80u8 || zz == 0u8) && (nn == 0x40u8 || nn == 0u8) && (hh == 0x20u8 || hh == 0u8)
        && (cc == 0x10u8 || cc == 0u8) ==> {
        &&& (((zz + nn + hh + cc) as u8) & 0x80u8 != 0) == (zz != 0)
        &&& (((zz + nn + hh + cc) as u8) & 0x40u8 != 0) == (nn != 0)
        &&& (((zz + nn + hh + cc) as u8) & 0x20u8 != 0) == (hh != 0)
        &&& (((zz + nn + hh + cc) as u8) & 0x10u8 != 0) == (cc != 0)
        &&& ((zz + nn + hh + cc) as u8) & 0x0Fu8 == 0
    }) by (bit_vector);
}

/// Build the flag byte from the four flags.
pub fn make_flags(z: bool, n: bool, h: bool, c: bool) -> (r: u8)
    ensures
        r == flag_byte(z, n, h, c),
{
    let mut f: u8 = 0;
    if z {
        f = f + flags::Z;
    }
    if n {
        f = f + flags::N;
    }
    if h {
        f = f + flags::H;
    }
    if c {
        f = f + flags::C;
    }
    f
}

/// ADD A, x.
pub fn add(a: u8, x: u8) -> (r: AluResult)
    ensures
        r.value == (a + x) % 256,
        r.flags == flag_byte((a + x) % 256 == 0, false, a % 16 + x % 16 > 15, a + x > 255),
{
    proof {
        assert(a & 0x0F == a % 16 && x & 0x0F == x % 16) by {
            crate::bits::lemma_u8(a);
            crate::bits::lemma_u8(x);
        }
    }
    let result = a.wrapping_add(x);
    let f = make_flags(result == 0, false, (a & 0x0F) + (x & 0x0F) > 0x0F, (a as u16) + (x as u16) > 0xFF);
    proof {
        assert(a & 0x0F == a % 16 && x & 0x0F == x % 16) by {
            crate::bits::lemma_u8(a);
            crate::bits::lemma_u8(x);
        }
    }
    AluResult { value: result, flags: f }
}

/// ADC A, x: add with the carry flag as carry in.
pub fn adc(a: u8, x: u8, carry: bool) -> (r: AluResult)
    ensures
        ({
            let c: int = if carry { 1 } else { 0 };
            &&& r.value == (a + x + c) % 256
            &&& r.flags == flag_byte(
                (a + x + c) % 256 == 0,
                false,
                a % 16 + x % 16 + c > 15,
                a + x + c > 255,
            )
        }),
{
    let c: u8 = if carry { 1 } else { 0 };
    proof {
        assert(a & 0x0F == a % 16 && x & 0x0F == x % 16) by {
            crate::bits::lemma_u8(a);
            crate::bits::lemma_u8(x);
        }
    }
    let result = a.wrapping_add(x).wrapping_add(c);
    let f = make_flags(
        result == 0,
        false,
        (a & 0x0F) + (x & 0x0F) + c > 0x0F,
        (a as u16) + (x as u16) + (c as u16) > 0xFF,
    );
    proof {
        assert(a & 0x0F == a % 16 && x & 0x0F == x % 16) by {
            crate::bits::lemma_u8(a);
            crate::bits::lemma_u8(x);
        }
    }
    AluResult { value: result, flags: f }
}

/// SUB A, x.
pub fn sub(a: u8, x: u8) -> (r: AluResult)
    ensures
        r.value == (a - x) % 256,
        r.flags == flag_byte((a - x) % 256 == 0, true, a % 16 < x % 16, a < x),
{
    let result = a.wrapping_sub(x);
    let f = make_flags(result == 0, true, (a & 0x0F) < (x & 0x0F), (a as u16) < (x as u16));
    proof {
        assert(a & 0x0F == a % 16 && x & 0x0F == x % 16) by {
            crate::bits::lemma_u8(a);
            crate::bits::lemma_u8(x);
        }
    }
    AluResult { value: result, flags: f }
}

/// SBC A, x: subtract with the carry flag as borrow in.
pub fn sbc(a: u8, x: u8, carry: bool) -> (r: AluResult)
    ensures
        ({
            let c: int = if carry { 1 } else { 0 };
            &&& r.value == (a - x - c) % 256
            &&& r.flags == flag_byte((a - x - c) % 256 == 0, true, a % 16 < x % 16 + c, a < x + c)
        }),
{
    let c: u8 = if carry { 1 } else { 0 };
    proof {
        assert(a & 0x0F == a % 16 && x & 0x0F == x % 16) by {
            crate::bits::lemma_u8(a);
            crate::bits::lemma_u8(x);
        }
    }
    let result = a.wrapping_sub(x).wrapping_sub(c);
    let f = make_flags(result == 0, true, (a & 0x0F) < (x & 0x0F) + c, (a as u16) < (x as u16) + (c as u16));
    proof {
        assert(a & 0x0F == a % 16 && x & 0x0F == x % 16) by {
            crate::bits::lemma_u8(a);
            crate::bits::lemma_u8(x);
        }
    }
    AluResult { value: result, flags: f }
}

/// CP A, x: the flags of SUB A, x with A unchanged.
pub fn cp(a: u8, x: u8) -> (r: AluResult)
    ensures
        r.value == a,
        r.flags == flag_byte((a - x) % 256 == 0, true, a % 16 < x % 16, a < x),
{
    let r = self::sub(a, x);
    AluResult { value: a, flags: r.flags }
}

/// AND A, x: H always set.
pub fn and(a: u8, x: u8) -> (r: AluResult)
    ensures
        r.value == a & x,
        r.flags == flag_byte(a & x == 0, false, true, false),
{
    let result = a & x;
    let f = make_flags(result == 0, false, true, false);
    AluResult { value: result, flags: f }
}

/// OR A, x.
pub fn or(a: u8, x: u8) -> (r: AluResult)
    ensures
        r.value == a | x,
        r.flags == flag_byte(a | x == 0, false, false, false),
{
    let result = a | x;
    let f = make_flags(result == 0, false, false, false);
    AluResult { value: result, flags: f }
}

/// XOR A, x.
pub fn xor(a: u8, x: u8) -> (r: AluResult)
    ensures
        r.value == a ^ x,
        r.flags == flag_byte(a ^ x == 0, false, false, false),
{
    let result = a ^ x;
    let f = make_flags(result == 0, false, false, false);
    AluResult { value: result, flags: f }
}

/// INC r: the carry flag of `old_f` is kept.
pub fn inc(x: u8, old_f: u8) -> (r: AluResult)
    ensures
        r.value == (x + 1) % 256,
        r.flags == flag_byte((x + 1) % 256 == 0, false, x % 16 == 15, old_f & flags::C != 0),
{
    let result = x.wrapping_add(1);
    let f = make_flags(result == 0, false, (x & 0x0F) == 0x0F, old_f & flags::C != 0);
    proof {
        assert(x & 0x0F == x % 16) by {
            crate::bits::lemma_u8(x);
        }
    }
    AluResult { value: result, flags: f }
}

/// DEC r: N set, the carry flag of `old_f` is kept.
pub fn dec(x: u8, old_f: u8) -> (r: AluResult)
    ensures
        r.value == (x - 1) % 256,
        r.flags == flag_byte((x - 1) % 256 == 0, true, x % 16 == 0, old_f & flags::C != 0),
{
    let result = x.wrapping_sub(1);
    let f = make_flags(result == 0, true, (x & 0x0F) == 0x00, old_f & flags::C != 0);
    proof {
        assert(x & 0x0F == x % 16) by {
            crate::bits::lemma_u8(x);
        }
    }
    AluResult { value: result, flags: f }
}

/// Subtracting x and then adding x back gives the accumulator back, and
/// the carry of the addition is set exactly when the subtraction borrowed
/// (unless x is zero).
pub proof fn lemma_sub_then_add(a: u8, x: u8)
    ensures
        ((((a - x) % 256) as u8) + x) % 256 == a,
{
}

/// CP sets Z exactly when the operands are equal and C exactly when A < x.
pub proof fn lemma_cp_compares(a: u8, x: u8)
    ensures
        ((a - x) % 256 == 0) == (a == x),
{
}

} // verus!
