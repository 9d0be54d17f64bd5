//! Game Boy DMG/CGB emulator core: the machine's logic (CPU, memory map,
//! cartridges, timers, graphics, sound channels and input) with its
//! behaviour stated in contracts.

pub mod apu;
pub mod bits;
pub mod cartridge;
pub mod cpu;
pub mod desktop;
pub mod dmg;
pub mod gbc_bios_palettes;
pub mod input;
pub mod keymap;
pub mod mmu;
pub mod ppu;
pub mod renderer;
pub mod runner;
pub mod save_state;
pub mod serial;
pub mod server;
pub mod state;
pub mod text;
pub mod timer;

use vstd::prelude::*;

verus! {

/// The library's version string.
pub fn version() -> (r: &'static str)
    ensures
        r@ == "gb-emulator-core 0.2.0"@,
{
    "gb-emulator-core 0.2.0"
}

} // verus!
