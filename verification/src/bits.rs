//! Facts about masks and shifts on bytes and words, each proved once by the
//! bit-vector solver and used wherever bit operations meet arithmetic.

use vstd::prelude::*;

verus! {

/// Masks and shifts of a byte as remainders and quotients.
pub proof fn lemma_u8(x: u8)
    by (bit_vector)
    ensures
        x & 0x01 == x % 2,
        x & 0x03 == x % 4,
        x & 0x07 == x % 8,
        x & 0x0F == x % 16,
        x & 0x1F == x % 32,
        x & 0x3F == x % 64,
        x & 0x7F == x % 128,
        x & 0xF0 == x - x % 16,
        x & 0x30 == x % 64 - x % 16,
        x & 0xF8 == x - x % 8,
        x & 0xFE == x - x % 2,
        (x & 0x80 != 0) == (x >= 0x80),
        x & 0x80 == x - x % 128,
        x >> 1u8 == x / 2,
        x >> 4u8 == x / 16,
        x >> 7u8 == x / 128,
        (x as u16) << 8u16 == x * 256,
        (x as u16) & 0xF0u16 == (x & 0xF0) as u16,
{
}

/// Facts about two bytes combined by masks.
pub proof fn lemma_u8_pair(x: u8, y: u8)
    by (bit_vector)
    ensures
        (x & 0x80) | (y & 0x3F) == (x & 0x80) + y % 64,
        (x | 0x80) & 0x40 == x & 0x40,
        ((x & 0xFE) | (y & 0x01)) & 0x40 == x & 0x40,
        (x as u16) | (((y as u16) & 0x01u16) << 8u16) == x + (y % 2) * 256,
{
}

/// Masks and shifts of a word as remainders and quotients.
pub proof fn lemma_u16(v: u16)
    by (bit_vector)
    ensures
        v & 0x000F == v % 16,
        v & 0x001F == v % 32,
        v & 0x00FF == v % 256,
        v & 0x0FFF == v % 0x1000,
        v & 0x1FFF == v % 0x2000,
        v & 0xFF00 == v - v % 256,
        (v >> 8u16) as u8 == v / 256,
        v as u8 == v % 256,
        (v & 0xFF) as u8 == v % 256,
        (v >> 5u16) & 0x1F == (v / 32) % 32,
        (v >> 10u16) & 0x1F == (v / 1024) % 32,
{
}

/// Two bytes joined into a word.
pub proof fn lemma_join(h: u16, l: u16)
    by (bit_vector)
    requires
        h < 256,
        l < 256,
    ensures
        (h << 8u16) | l == h * 256 + l,
        l | (h << 8u16) == l + h * 256,
{
}

/// A byte merged into one half of a word.
pub proof fn lemma_merge(s: u16, v: u8)
    by (bit_vector)
    ensures
        (s & 0x00FF) | ((v as u16) << 8u16) == s % 256 + v * 256,
        (s & 0xFF00) | ((v & 0xF0) as u16) == (s / 256) * 256 + (v & 0xF0),
        (s & 0x00FF) | (((v & 0x1F) as u16) << 8u16) | 0x8000 == 0x8000 + (v & 0x1F) * 256 + s % 256,
{
}

/// Narrowing a 32-bit value and halving it.
pub proof fn lemma_u32(c: u32)
    by (bit_vector)
    ensures
        c as u16 == c % 0x10000,
        c as u8 == c % 256,
        c >> 1u32 == c / 2,
{
}

/// Widening a 5-bit channel to 8 bits and packing three bytes into 0xRRGGBB.
pub proof fn lemma_rgb()
    by (bit_vector)
    ensures
        forall|x: u32| #![auto] x < 32 ==> (x << 3u32 | x >> 2u32) == x * 8 + x / 4,
        forall|a: u32, b: u32, c: u32|
            #![auto]
            a < 256 && b < 256 && c < 256 ==> (a << 16u32) | (b << 8u32) | c == a * 0x10000 + b * 0x100 + c,
{
}

} // verus!
