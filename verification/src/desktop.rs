//! The desktop front end's session: the machine with its frame runner, the
//! loaded game, and the palette selection; keyboard polls become button
//! presses and releases, function keys cycle the palette.

use crate::cartridge::header::title_spec;
use crate::cartridge::{load_error, loadable, Cartridge};
use crate::cpu::instructions::CpuState;
use crate::cpu::{power_on, Cpu, MachineView};
use crate::gbc_bios_palettes::bios_palettes;
use crate::input::{Button, JoypadView};
use crate::keymap::{difference, key_button, key_to_button, newly_pressed, newly_released, Key};
use crate::mmu::{power_on_mmu, MmuView};
use crate::ppu::cgb_palette::PaletteView;
use crate::ppu::palettes::{
    default_palette, detect_game_palette, manual_palette, MANUAL_PALETTE_NAMES,
};
use crate::ppu::{PpuView, BGP_ADDR, LCDC_ADDR};
use crate::runner::FrameRunner;
use crate::state::{
    display_name, game_palette, lcd_on, machine_for_game, machine_for_rom, next_palette, prev_palette, with_manual_palette,
    with_mem, PALETTE_COUNT,
};
use vstd::prelude::*;
use vstd::string::StringExecFns;

verus! {

/// The joypad after pressing `b`.
pub open spec fn press_view(j: JoypadView, b: Button) -> JoypadView {
    JoypadView {
        pressed: j.pressed.update(b.index_spec(), true),
        irq_pending: j.irq_pending || !j.pressed[b.index_spec()],
    }
}

/// The joypad after releasing `b`.
pub open spec fn release_view(j: JoypadView, b: Button) -> JoypadView {
    JoypadView { pressed: j.pressed.update(b.index_spec(), false), ..j }
}

/// The joypad after pressing, in order, the buttons bound to `keys`.
pub open spec fn press_keys(j: JoypadView, keys: Seq<Key>) -> JoypadView
    decreases keys.len(),
{
    if keys.len() == 0 {
        j
    } else {
        let j1 = press_keys(j, keys.drop_last());
        match key_button(keys.last()) {
            Some(b) => press_view(j1, b),
            None => j1,
        }
    }
}

/// The joypad after releasing, in order, the buttons bound to `keys`.
pub open spec fn release_keys(j: JoypadView, keys: Seq<Key>) -> JoypadView
    decreases keys.len(),
{
    if keys.len() == 0 {
        j
    } else {
        let j1 = release_keys(j, keys.drop_last());
        match key_button(keys.last()) {
            Some(b) => release_view(j1, b),
            None => j1,
        }
    }
}

/// The name of the palette selection: a manual palette's name, else
/// "Native" for a CGB game and "Game Palette" for a DMG game.
pub open spec fn palette_label(idx: Option<usize>, is_cgb: bool) -> Seq<char> {
    match idx {
        None => if is_cgb {
            "Native"@
        } else {
            "Game Palette"@
        },
        Some(i) => MANUAL_PALETTE_NAMES[i as int]@,
    }
}

/// The name of the palette selection.
pub fn palette_name(idx: Option<usize>, is_cgb: bool) -> (r: String)
    requires
        idx matches Some(i) ==> i < PALETTE_COUNT,
    ensures
        r@ == palette_label(idx, is_cgb),
{
    match idx {
        None => if is_cgb {
            String::from_str("Native")
        } else {
            String::from_str("Game Palette")
        },
        Some(i) => String::from_str(MANUAL_PALETTE_NAMES[i]),
    }
}

/// A desktop session.
pub struct Session {
    pub runner: FrameRunner,
    /// The name shown for the game.
    pub game_title: String,
    /// The ROM image, kept to colour the game again.
    pub rom_data: Option<Vec<u8>>,
    pub is_cgb: bool,
    /// `None`: the game's own colours; `Some(i)`: manual palette `i`.
    pub palette_idx: Option<usize>,
}

impl Session {
    /// The machine keeps its invariant and a manual palette index is in range.
    pub open spec fn wf(&self) -> bool {
        &&& self.runner.cpu.wf()
        &&& self.palette_idx matches Some(i) ==> i < PALETTE_COUNT
    }

    /// A session without a game: a fresh machine with the LCD on and the
    /// standard palette.
    pub fn blank() -> (r: Self)
        ensures
            r.wf(),
            r.runner.cpu.machine() == with_mem(power_on(), lcd_on(power_on_mmu())),
            r.runner.frame_count == 0,
            r.game_title@ == "Game Boy Emulator"@,
            r.rom_data is None,
            !r.is_cgb,
            r.palette_idx is None,
    {
        let mut cpu = Cpu::new();
        cpu.mmu.write_byte(LCDC_ADDR, 0x91);
        cpu.mmu.write_byte(BGP_ADDR, 0xE4);
        Session {
            runner: FrameRunner::new(cpu),
            game_title: String::from_str("Game Boy Emulator"),
            rom_data: None,
            is_cgb: false,
            palette_idx: None,
        }
    }

    /// A session for the ROM image `data`: the game's machine (see
    /// `machine_for_game`) with the LCD on and the standard palette.
    pub fn with_rom(data: Vec<u8>) -> (r: Result<Self, String>)
        ensures
            match r {
                Ok(s) => {
                    &&& loadable(data@)
                    &&& s.wf()
                    &&& exists|c: Cpu| #[trigger]
                        machine_for_rom(c, data@) && s.runner.cpu.machine() == with_mem(
                            c.machine(),
                            lcd_on(c.mmu@),
                        )
                    &&& s.runner.frame_count == 0
                    &&& s.is_cgb == (data@[0x0143] == 0x80 || data@[0x0143] == 0xC0)
                    &&& s.game_title@ == display_name(title_spec(data@))
                    &&& s.rom_data == Some(data)
                    &&& s.palette_idx is None
                },
                Err(e) => !loadable(data@) && e@ == load_error(data@),
            },
    {
        let copy = data.clone();
        proof {
            assert(copy@ =~= data@);
        }
        let cart = match Cartridge::load(copy) {
            Ok(c) => c,
            Err(e) => return Err(e),
        };
        let (mut cpu, is_cgb, name) = machine_for_game(cart, data.as_slice());
        let ghost c = cpu;
        cpu.mmu.write_byte(LCDC_ADDR, 0x91);
        cpu.mmu.write_byte(BGP_ADDR, 0xE4);
        assert(machine_for_rom(c, data@));
        Ok(Session {
            runner: FrameRunner::new(cpu),
            game_title: name,
            rom_data: Some(data),
            is_cgb,
            palette_idx: None,
        })
    }

    /// The window title: the game's name and the palette in use.
    pub fn title(&self) -> (r: String)
        requires
            self.wf(),
        ensures
            r@ == self.game_title@ + " ["@ + palette_label(self.palette_idx, self.is_cgb) + "]"@,
    {
        let mut t = self.game_title.clone();
        t.append(" [");
        let name = palette_name(self.palette_idx, self.is_cgb);
        t.append(name.as_str());
        t.append("]");
        t
    }

    /// Turn a keyboard poll into joypad input: the buttons bound to keys
    /// that went down since the previous poll are pressed, then those bound
    /// to keys that went up are released.
    pub fn apply_keys(&mut self, current: &[Key], previous: &[Key])
        requires
            old(self).wf(),
        ensures
            final(self).wf(),
            final(self).runner.cpu.machine() == (MachineView {
                joypad: release_keys(
                    press_keys(old(self).runner.cpu.joypad@, difference(current@, previous@)),
                    difference(previous@, current@),
                ),
                ..old(self).runner.cpu.machine()
            }),
            final(self).runner.frame_count == old(self).runner.frame_count,
            *final(self) == (Session { runner: final(self).runner, ..*old(self) }),
    {
        let down = newly_pressed(current, previous);
        let ghost m0 = self.runner.cpu.machine();
        let mut i: usize = 0;
        while i < down.len()
            invariant
                i <= down@.len(),
                down@ == difference(current@, previous@),
                self.wf(),
                self.runner.cpu.machine() == (MachineView {
                    joypad: press_keys(m0.joypad, down@.take(i as int)),
                    ..m0
                }),
                self.runner.frame_count == old(self).runner.frame_count,
                *self == (Session { runner: self.runner, ..*old(self) }),
                m0 == old(self).runner.cpu.machine(),
            decreases down@.len() - i,
        {
            proof {
                assert(down@.take(i + 1).drop_last() =~= down@.take(i as int));
            }
            match key_to_button(down[i]) {
                Some(b) => self.runner.cpu.button_press(b),
                None => {},
            }
            i = i + 1;
        }
        assert(down@.take(down@.len() as int) =~= down@);
        let up = newly_released(previous, current);
        let ghost m1 = self.runner.cpu.machine();
        let mut k: usize = 0;
        while k < up.len()
            invariant
                k <= up@.len(),
                up@ == difference(previous@, current@),
                self.wf(),
                self.runner.cpu.machine() == (MachineView {
                    joypad: release_keys(m1.joypad, up@.take(k as int)),
                    ..m1
                }),
                self.runner.frame_count == old(self).runner.frame_count,
                *self == (Session { runner: self.runner, ..*old(self) }),
            decreases up@.len() - k,
        {
            proof {
                assert(up@.take(k + 1).drop_last() =~= up@.take(k as int));
            }
            match key_to_button(up[k]) {
                Some(b) => self.runner.cpu.button_release(b),
                None => {},
            }
            k = k + 1;
        }
        assert(up@.take(up@.len() as int) =~= up@);
    }

    /// Force manual palette `idx` on the PPU.
    fn show_manual_palette(&mut self, idx: usize)
        requires
            old(self).wf(),
            idx < PALETTE_COUNT,
        ensures
            final(self).wf(),
            with_manual_palette(old(self).runner.cpu, final(self).runner.cpu, idx as int),
            final(self).runner.frame_count == old(self).runner.frame_count,
            *final(self) == (Session { runner: final(self).runner, ..*old(self) }),
    {
        let (_, p) = manual_palette(idx);
        self.runner.cpu.ppu.set_dmg_palettes(p);
        self.runner.cpu.ppu.set_force_dmg_palette(true);
    }

    /// Select the previous manual palette (the last after the game's own).
    pub fn palette_prev(&mut self)
        requires
            old(self).wf(),
        ensures
            final(self).wf(),
            final(self).palette_idx == Some(prev_palette(old(self).palette_idx)),
            with_manual_palette(old(self).runner.cpu, final(self).runner.cpu, prev_palette(old(self).palette_idx) as int),
            final(self).runner.frame_count == old(self).runner.frame_count,
            *final(self) == (Session { runner: final(self).runner, palette_idx: final(self).palette_idx, ..*old(self) }),
    {
        let idx = match self.palette_idx {
            None => PALETTE_COUNT - 1,
            Some(0) => PALETTE_COUNT - 1,
            Some(i) => i - 1,
        };
        self.palette_idx = Some(idx);
        self.show_manual_palette(idx);
    }

    /// Select the next manual palette (the first after the game's own).
    pub fn palette_next(&mut self)
        requires
            old(self).wf(),
        ensures
            final(self).wf(),
            final(self).palette_idx == Some(next_palette(old(self).palette_idx)),
            with_manual_palette(old(self).runner.cpu, final(self).runner.cpu, next_palette(old(self).palette_idx) as int),
            final(self).runner.frame_count == old(self).runner.frame_count,
            *final(self) == (Session { runner: final(self).runner, palette_idx: final(self).palette_idx, ..*old(self) }),
    {
        let idx = match self.palette_idx {
            None => 0,
            Some(i) => (i + 1) % PALETTE_COUNT,
        };
        self.palette_idx = Some(idx);
        self.show_manual_palette(idx);
    }

    /// Go back to the game's own colours (see `EmulatorState::palette_game`).
    #[verifier::rlimit(40)]
    pub fn palette_game(&mut self)
        requires
            old(self).wf(),
        ensures
            final(self).wf(),
            final(self).palette_idx is None,
            final(self).runner.frame_count == old(self).runner.frame_count,
            *final(self) == (Session { runner: final(self).runner, palette_idx: None, ..*old(self) }),
            ({
                let c = old(self).runner.cpu;
                let c2 = final(self).runner.cpu;
                let m = c.mmu@;
                let m2 = if !old(self).is_cgb && old(self).rom_data is Some {
                    let (bg, obj) = bios_palettes(old(self).rom_data->0@, m.bg_palette.ram, m.obj_palette.ram);
                    MmuView {
                        bg_palette: PaletteView { ram: bg, ..m.bg_palette },
                        obj_palette: PaletteView { ram: obj, ..m.obj_palette },
                        ..m
                    }
                } else {
                    m
                };
                &&& c2.machine() == (MachineView {
                    core: CpuState { mem: m2, ..c.state() },
                    ppu: PpuView { force_dmg_palette: false, dmg: c2.ppu@.dmg, ..c.ppu@ },
                    ..c.machine()
                })
                &&& if old(self).is_cgb {
                    c2.ppu@.dmg == c.ppu@.dmg
                } else {
                    game_palette(c2.ppu@.dmg, old(self).game_title@)
                }
            }),
    {
        self.palette_idx = None;
        self.runner.cpu.ppu.set_force_dmg_palette(false);
        if !self.is_cgb {
            match &self.rom_data {
                Some(data) => self.runner.cpu.mmu.apply_bios_palettes(data.as_slice()),
                None => {},
            }
            let p = match detect_game_palette(self.game_title.as_str()) {
                Some(p) => p,
                None => default_palette(),
            };
            self.runner.cpu.ppu.set_dmg_palettes(p);
        }
    }
}

} // verus!
