//! The DMG-only core: its own memory map, cartridge, timer, interrupt
//! helpers and scanline PPU, sharing the register file, the ALU and the
//! memory bank controllers with the CGB core.

pub mod cartridge;
pub mod cpu;
pub mod interrupts;
pub mod mmu;
pub mod ppu;
pub mod timer;

use vstd::prelude::*;

verus! {

/// The DMG core's version string.
pub fn version() -> (r: &'static str)
    ensures
        r@ == "gb-emulator-core 0.1.0"@,
{
    "gb-emulator-core 0.1.0"
}

} // verus!
