//! Handing the framebuffer to a window: the emulator's 0x00RRGGBB pixels
//! are already in the format a window buffer takes.

use crate::ppu::FRAMEBUFFER_SIZE;
use vstd::prelude::*;

verus! {

/// A copy of a full framebuffer (one 0x00RRGGBB value per pixel) for a
/// window buffer.
pub fn framebuffer_to_pixels(fb: &[u32]) -> (r: Vec<u32>)
    requires
        fb@.len() == FRAMEBUFFER_SIZE,
    ensures
        r@ == fb@,
{
    vstd::slice::slice_to_vec(fb)
}

} // verus!
