//! Bit masks of the four flags held in the upper nibble of F.

use vstd::prelude::*;

verus! {

/// Zero flag.
pub const Z: u8 = 0x80;
/// Subtract flag.
pub const N: u8 = 0x40;
/// Half-carry flag.
pub const H: u8 = 0x20;
/// Carry flag.
pub const C: u8 = 0x10;

} // verus!
