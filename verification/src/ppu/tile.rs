//! Decoding of tile data, shared by both pixel pipelines.
//!
//! A tile row is two bytes: bit `b` of the low byte is bit 0 of a pixel's
//! 2-bit color index, bit `b` of the high byte its bit 1, with bit 7 the
//! leftmost pixel. A DMG palette register maps color index `i` to the shade
//! in its bits `2i+1..2i`.

use vstd::prelude::*;

verus! {

/// The address of a tile's first byte: unsigned indices count up from
/// 0x8000; signed ones (the index read as an `i8`) from 0x9000.
pub open spec fn tile_addr_spec(tile_num: u8, signed: bool) -> u16 {
    if !signed {
        (0x8000 + tile_num * 16) as u16
    } else if tile_num < 128 {
        (0x9000 + tile_num * 16) as u16
    } else {
        (0x9000 - (256 - tile_num) * 16) as u16
    }
}

/// The VRAM address of a tile's data.
pub fn tile_addr(tile_num: u8, signed: bool) -> (r: u16)
    ensures
        r == tile_addr_spec(tile_num, signed),
        0x8000 <= r <= 0x97F0,
        r % 16 == 0,
{
    if !signed {
        0x8000 + tile_num as u16 * 16
    } else if tile_num < 128 {
        0x9000 + tile_num as u16 * 16
    } else {
        0x9000 - (256 - tile_num as u16) * 16
    }
}

/// The color index of pixel bit `bit` of the tile row `lo`, `hi`.
pub open spec fn color_index_spec(lo: u8, hi: u8, bit: u8) -> u8 {
    (((hi >> bit) % 2) * 2 + (lo >> bit) % 2) as u8
}

/// Tile data addressing: unsigned mode puts tile `t` at 0x8000 + 16 t;
/// signed mode reads `t` as a signed byte around 0x9000. Tiles 128-255 are
/// the shared block 0x8800-0x8FFF in both modes, tiles 0-127 of signed
/// mode lie in 0x9000-0x97FF, and every tile's 16 bytes lie in VRAM's
/// tile area 0x8000-0x97FF.
pub proof fn lemma_tile_addr(t: u8)
    ensures
        tile_addr_spec(t, false) == 0x8000 + 16 * t,
        tile_addr_spec(t, true) == 0x9000 + 16 * (t as i8),
        t >= 128 ==> tile_addr_spec(t, true) == tile_addr_spec(t, false),
        t < 128 ==> 0x9000 <= tile_addr_spec(t, true) <= 0x97F0,
        0x8000 <= tile_addr_spec(t, true) && tile_addr_spec(t, true) + 16 <= 0x9800,
        tile_addr_spec(t, false) + 16 <= 0x9000,
{
    assert(t < 128 ==> (t as i8) == t) by (bit_vector);
    assert(t >= 128 ==> (t as i8) == t - 256) by (bit_vector);
}

/// The colour index of pixel `bit` of a tile row: bit `bit` of the high
/// byte, then of the low byte.
pub fn color_index(lo: u8, hi: u8, bit: u8) -> (r: u8)
    requires
        bit < 8,
    ensures
        r == color_index_spec(lo, hi, bit),
        r < 4,
{
    let h = (hi >> bit) % 2;
    let l = (lo >> bit) % 2;
    h * 2 + l
}

/// The shade that palette register `pal` gives color index `idx`.
pub open spec fn shade_spec(pal: u8, idx: u8) -> u8 {
    ((pal >> ((2 * idx) as u8)) % 4) as u8
}

pub fn shade(pal: u8, idx: u8) -> (r: u8)
    requires
        idx < 4,
    ensures
        r == shade_spec(pal, idx),
        r < 4,
{
    (pal >> (2 * idx)) % 4
}

} // verus!
