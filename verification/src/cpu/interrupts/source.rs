//! Bit masks of the five interrupt sources in IF and IE.

use vstd::prelude::*;

verus! {

pub const VBLANK: u8 = 0x01;
pub const LCD_STAT: u8 = 0x02;
pub const TIMER: u8 = 0x04;
pub const SERIAL: u8 = 0x08;
pub const JOYPAD: u8 = 0x10;

} // verus!
