//! The emulator as a front end drives it: a BIOS and a ROM uploaded, the
//! machine started, frames run and handed out as RGB bytes, the colour
//! palette cycled, and buttons pressed and released.

use crate::cartridge::header::{header_of, title_spec};
use crate::cartridge::{initial_mbc, load_error, loadable, Cartridge};
use crate::cpu::registers::Registers;
use crate::cpu::instructions::CpuState;
use crate::cpu::{power_on, Cpu, MachineView};
use crate::gbc_bios_palettes::bios_palettes;
use crate::input::{Button, JoypadView};
use crate::mmu::{power_on_mmu, MmuView};
use crate::ppu::palettes::{
    default_palette, detect_game_name, detect_game_palette, first_game, grey, manual_palette,
    palettes_of, DmgColorPalettes, GAME_COLORS, GAME_NAMES, MANUAL_PALETTE_COLORS,
    MANUAL_PALETTE_NAMES,
};
use crate::ppu::cgb_palette::PaletteView;
use crate::ppu::{power_on_ppu, PpuView, BGP_ADDR, LCDC_ADDR};
use crate::runner::{frame_limit, run_until_frame, run_until_frame_exec, CYCLES_PER_FRAME};
use crate::text::{decimal, push_decimal, uppercase_text};
use vstd::prelude::*;
use vstd::string::StringExecFns;

verus! {

/// The largest ROM image accepted (8 MiB).
pub const MAX_ROM_BYTES: usize = 8 * 1024 * 1024;

/// The size of a BIOS image.
pub const MAX_BIOS_BYTES: usize = 256;

/// The number of selectable palettes.
pub const PALETTE_COUNT: usize = 12;

/// Where the emulator stands.
#[derive(Debug, Clone, PartialEq, Eq, Structural)]
pub enum EmulatorStatus {
    NoRom,
    Ready,
    Running,
}

/// The emulator's state between requests.
pub struct EmulatorState {
    pub cpu: Option<Cpu>,
    pub status: EmulatorStatus,
    /// The uploaded BIOS image, loaded when the machine starts.
    pub bios: Option<Vec<u8>>,
    /// The ROM image, kept to colour the game again.
    pub rom_data: Option<Vec<u8>>,
    pub is_cgb: bool,
    pub game_title: String,
    /// `None`: the game's own (or native CGB) colours; `Some(i)`: manual
    /// palette `i`.
    pub palette_idx: Option<usize>,
}

/// The message for a ROM of `len` bytes, over the limit.
pub open spec fn too_large_message(len: nat) -> Seq<char> {
    "ROM too large: "@ + decimal(len) + " bytes (max "@ + decimal(MAX_ROM_BYTES as nat) + ")"@
}

/// The name shown for a game whose header title is `title`: the name of the
/// first known game whose title occurs in it (upper-cased), else the title,
/// else "Game Boy".
pub open spec fn display_name(title: Seq<char>) -> Seq<char> {
    match first_game(uppercase_text(title), 0) {
        Some(i) => GAME_NAMES[i]@,
        None => if title.len() == 0 {
            "Game Boy"@
        } else {
            title
        },
    }
}

/// `p` are the colours detected for `title`: those of the first known game
/// whose title occurs in it (upper-cased), else the grey default.
pub open spec fn game_palette(p: DmgColorPalettes, title: Seq<char>) -> bool {
    match first_game(uppercase_text(title), 0) {
        Some(i) => p == palettes_of(GAME_COLORS[i]),
        None => p.bg@ == grey()@ && p.obj0@ == grey()@ && p.obj1@ == grey()@,
    }
}

/// The registers a CGB boot ROM leaves.
pub open spec fn cgb_boot_regs() -> Registers {
    Registers { a: 0x11, f: 0x80, b: 0x00, c: 0x00, d: 0xFF, e: 0x56, h: 0x00, l: 0x0D, sp: 0xFFFE, pc: 0x0100 }
}

/// Palette RAM at power-on.
pub open spec fn blank_palette_ram() -> Seq<u8> {
    Seq::new(64, |i: int| 0xFFu8)
}

/// The machine `c` as `upload_rom` builds it from `rom`: a fresh machine with
/// the cartridge inserted; a CGB game gets the CGB boot registers, a DMG game
/// the boot ROM's colourisation and the palettes detected for its title.
pub open spec fn machine_for_rom(c: Cpu, rom: Seq<u8>) -> bool {
    let cgb = rom[0x0143] == 0x80 || rom[0x0143] == 0xC0;
    &&& c.wf()
    &&& c.machine() == (MachineView {
        core: CpuState {
            regs: c.regs,
            mem: MmuView {
                cart: c.mmu@.cart,
                cgb_mode: cgb,
                bg_palette: c.mmu@.bg_palette,
                obj_palette: c.mmu@.obj_palette,
                ..power_on_mmu()
            },
            ..power_on().core
        },
        ppu: PpuView { cgb_mode: cgb, dmg: c.ppu@.dmg, ..power_on_ppu() },
        ..power_on()
    })
    &&& c.regs == if cgb { cgb_boot_regs() } else { Registers::new_spec() }
    &&& c.cycles == 0 && !c.ime && !c.halted
    &&& c.mmu@.cart matches Some(cv) && header_of(cv.header, rom) && cv.mbc == initial_mbc(rom)
    &&& c.mmu@.cgb_mode == cgb
    &&& c.ppu@.cgb_mode == cgb
    &&& !c.ppu@.frame_ready && !c.ppu@.force_dmg_palette
    &&& if cgb {
        &&& c.mmu@.bg_palette.ram == blank_palette_ram()
        &&& c.mmu@.obj_palette.ram == blank_palette_ram()
        &&& c.ppu@.dmg.bg@ == grey()@ && c.ppu@.dmg.obj0@ == grey()@ && c.ppu@.dmg.obj1@ == grey()@
    } else {
        &&& (c.mmu@.bg_palette.ram, c.mmu@.obj_palette.ram) == bios_palettes(
            rom,
            blank_palette_ram(),
            blank_palette_ram(),
        )
        &&& game_palette(c.ppu@.dmg, title_spec(rom))
    }
}

/// Memory with a BIOS image loaded and its overlay on, if there is one.
pub open spec fn with_bios(m: MmuView, bios: Option<Vec<u8>>) -> MmuView {
    match bios {
        Some(b) => MmuView { bios: b@, bios_active: true, ..m },
        None => m,
    }
}

/// Memory with the LCD switched on (LCDC 0x91) and the standard DMG
/// background palette (BGP 0xE4).
pub open spec fn lcd_on(m: MmuView) -> MmuView {
    m.write(LCDC_ADDR, 0x91).write(BGP_ADDR, 0xE4)
}

/// The machine `mv` with memory `m`.
pub open spec fn with_mem(mv: MachineView, m: MmuView) -> MachineView {
    MachineView { core: CpuState { mem: m, ..mv.core }, ..mv }
}

/// `after` is the machine `before` ran for one frame (see
/// `run_until_frame`), as far as that run is free of counter overflow.
pub open spec fn ran_one_frame(before: MachineView, after: Cpu) -> bool {
    &&& after.wf()
    &&& run_until_frame(before, frame_limit(before.cycles)) matches Some((m, _)) ==> after.machine() == m
}

/// The byte `k` (0 red, 1 green, 2 blue) of a 0x00RRGGBB colour.
pub open spec fn channel(px: u32, k: int) -> u8 {
    if k == 0 {
        ((px >> 16) & 0xFF) as u8
    } else if k == 1 {
        ((px >> 8) & 0xFF) as u8
    } else {
        (px & 0xFF) as u8
    }
}

/// A framebuffer as RGB24: three bytes (red, green, blue) per pixel.
pub open spec fn rgb_bytes(fb: Seq<u32>) -> Seq<u8> {
    Seq::new(fb.len() * 3, |i: int| channel(fb[i / 3], i % 3))
}

/// `c2` is `c` with manual palette `i` forced on its PPU.
pub open spec fn with_manual_palette(c: Cpu, c2: Cpu, i: int) -> bool {
    &&& c2.wf()
    &&& c2.machine() == (MachineView {
        ppu: PpuView { dmg: palettes_of(MANUAL_PALETTE_COLORS[i]), force_dmg_palette: true, ..c.ppu@ },
        ..c.machine()
    })
}

/// The manual palette after `idx`: the first after the game's own, then
/// each in turn, wrapping after the last.
pub open spec fn next_palette(idx: Option<usize>) -> usize {
    match idx {
        None => 0,
        Some(i) => ((i + 1) % PALETTE_COUNT as int) as usize,
    }
}

/// The manual palette before `idx`: the last before the game's own and
/// before the first.
pub open spec fn prev_palette(idx: Option<usize>) -> usize {
    match idx {
        None => (PALETTE_COUNT - 1) as usize,
        Some(i) => if i == 0 {
            (PALETTE_COUNT - 1) as usize
        } else {
            (i - 1) as usize
        },
    }
}

/// Stepping to the next manual palette and back (or back and on) returns to
/// the palette selected before.
pub proof fn lemma_palette_steps_invert(i: usize)
    requires
        i < PALETTE_COUNT,
    ensures
        prev_palette(Some(next_palette(Some(i)))) == i,
        next_palette(Some(prev_palette(Some(i)))) == i,
{
}

/// The manual palette `n` steps forward from palette `i`.
pub open spec fn palette_after(i: usize, n: nat) -> usize
    decreases n,
{
    if n == 0 {
        i
    } else {
        next_palette(Some(palette_after(i, (n - 1) as nat)))
    }
}

/// Stepping forward `n` times from palette `i` selects palette `i + n`
/// modulo the number of palettes.
pub proof fn lemma_palette_cycle(i: usize, n: nat)
    requires
        i < PALETTE_COUNT,
    ensures
        palette_after(i, n) == (i + n) % (PALETTE_COUNT as int),
    decreases n,
{
    if n > 0 {
        lemma_palette_cycle(i, (n - 1) as nat);
    }
}

/// Stepping forward through all the manual palettes comes back to the one
/// selected.
pub proof fn lemma_palette_full_cycle(i: usize)
    requires
        i < PALETTE_COUNT,
    ensures
        palette_after(i, PALETTE_COUNT as nat) == i,
{
    lemma_palette_cycle(i, PALETTE_COUNT as nat);
}

/// The RGB24 bytes of a framebuffer.
fn rgb24(fb: &Vec<u32>) -> (r: Vec<u8>)
    requires
        fb@.len() * 3 <= usize::MAX,
    ensures
        r@ == rgb_bytes(fb@),
{
    let mut out: Vec<u8> = Vec::new();
    let mut i: usize = 0;
    while i < fb.len()
        invariant
            i <= fb@.len(),
            fb@.len() * 3 <= usize::MAX,
            out@.len() == 3 * i,
            forall|j: int| 0 <= j < 3 * i ==> #[trigger] out@[j] == channel(fb@[j / 3], j % 3),
        decreases fb@.len() - i,
    {
        let px = fb[i];
        out.push(((px >> 16) & 0xFF) as u8);
        out.push(((px >> 8) & 0xFF) as u8);
        out.push((px & 0xFF) as u8);
        proof {
            assert forall|j: int| 0 <= j < 3 * i + 3 implies #[trigger] out@[j] == channel(fb@[j / 3], j % 3) by {
                if j >= 3 * i {
                    assert(j / 3 == i && j % 3 == j - 3 * i) by (nonlinear_arith)
                        requires
                            3 * i <= j < 3 * i + 3,
                    ;
                }
            }
        }
        i = i + 1;
    }
    assert(out@ =~= rgb_bytes(fb@));
    out
}

/// A fresh machine for the game `cart`, loaded from `rom`: the cartridge
/// inserted, CGB mode as its header asks; a CGB game gets the CGB boot
/// registers, a DMG game the boot ROM's colourisation and the palettes
/// detected for its title. Returns the machine, whether it runs in CGB mode,
/// and the name shown for the game.
pub fn machine_for_game(cart: Cartridge, rom: &[u8]) -> (r: (Cpu, bool, String))
    requires
        cart@.mbc.wf(),
        header_of(cart@.header, rom@),
        cart@.mbc == initial_mbc(rom@),
        rom@.len() >= 0x0150,
    ensures
        machine_for_rom(r.0, rom@),
        r.1 == (rom@[0x0143] == 0x80 || rom@[0x0143] == 0xC0),
        r.2@ == display_name(title_spec(rom@)),
{
    let title = cart.header_ref().title.clone();
    let is_cgb = cart.header_ref().is_cgb();
    let display = match detect_game_name(title.as_str()) {
        Some(n) => String::from_str(n),
        None => if title.as_str().is_empty() {
            String::from_str("Game Boy")
        } else {
            title.clone()
        },
    };
    let mut cpu = Cpu::new();
    cpu.ppu.set_cgb_mode(is_cgb);
    cpu.mmu.load_cartridge(cart);
    if !is_cgb {
        cpu.mmu.apply_bios_palettes(rom);
        let p = match detect_game_palette(title.as_str()) {
            Some(p) => p,
            None => default_palette(),
        };
        cpu.ppu.set_dmg_palettes(p);
    }
    if is_cgb {
        cpu.regs.a = 0x11;
        cpu.regs.f = 0x80;
        cpu.regs.b = 0x00;
        cpu.regs.c = 0x00;
        cpu.regs.d = 0xFF;
        cpu.regs.e = 0x56;
        cpu.regs.h = 0x00;
        cpu.regs.l = 0x0D;
        cpu.regs.sp = 0xFFFE;
        cpu.regs.pc = 0x0100;
    }
    (cpu, is_cgb, display)
}

impl EmulatorState {
    /// The machine keeps its invariant and a manual palette index is in range.
    pub open spec fn wf(&self) -> bool {
        &&& self.cpu matches Some(c) ==> c.wf()
        &&& self.palette_idx matches Some(i) ==> i < PALETTE_COUNT
    }

    /// No ROM, no BIOS, no machine.
    pub fn new() -> (r: Self)
        ensures
            r.wf(),
            r.cpu is None,
            r.status == EmulatorStatus::NoRom,
            r.bios is None,
            r.rom_data is None,
            !r.is_cgb,
            r.game_title@ == Seq::<char>::empty(),
            r.palette_idx is None,
    {
        EmulatorState {
            cpu: None,
            status: EmulatorStatus::NoRom,
            bios: None,
            rom_data: None,
            is_cgb: false,
            game_title: String::new(),
            palette_idx: None,
        }
    }

    /// Keep a BIOS image for the next start; it must be 256 bytes.
    pub fn upload_bios(&mut self, data: Vec<u8>) -> (r: Result<(), String>)
        requires
            old(self).wf(),
        ensures
            final(self).wf(),
            data@.len() == MAX_BIOS_BYTES ==> r is Ok && *final(self) == (EmulatorState {
                bios: Some(data),
                ..*old(self)
            }),
            data@.len() != MAX_BIOS_BYTES ==> *final(self) == *old(self) && (r matches Err(e) && e@
                == "BIOS must be exactly 256 bytes, got "@ + decimal(data@.len())),
    {
        if data.len() != MAX_BIOS_BYTES {
            let mut e = String::from_str("BIOS must be exactly 256 bytes, got ");
            push_decimal(&mut e, data.len());
            return Err(e);
        }
        self.bios = Some(data);
        Ok(())
    }

    /// Load a ROM image (at most 8 MiB) into a fresh machine: the cartridge
    /// is parsed and inserted, a CGB game gets the CGB boot registers, a DMG
    /// game the boot ROM's colourisation and the palettes detected for its
    /// title. Returns the name shown for the game.
    pub fn upload_rom(&mut self, data: Vec<u8>) -> (r: Result<String, String>)
        requires
            old(self).wf(),
        ensures
            final(self).wf(),
            match r {
                Ok(name) => {
                    &&& data@.len() <= MAX_ROM_BYTES
                    &&& loadable(data@)
                    &&& final(self).cpu matches Some(c) && machine_for_rom(c, data@)
                    &&& final(self).status == EmulatorStatus::Ready
                    &&& final(self).is_cgb == (data@[0x0143] == 0x80 || data@[0x0143] == 0xC0)
                    &&& final(self).game_title@ == display_name(title_spec(data@))
                    &&& name@ == final(self).game_title@
                    &&& final(self).rom_data == Some(data)
                    &&& final(self).palette_idx is None
                    &&& final(self).bios == old(self).bios
                },
                Err(e) => {
                    &&& *final(self) == *old(self)
                    &&& data@.len() > MAX_ROM_BYTES ==> e@ == too_large_message(data@.len())
                    &&& data@.len() <= MAX_ROM_BYTES ==> !loadable(data@) && e@ == load_error(data@)
                },
            },
    {
        if data.len() > MAX_ROM_BYTES {
            let mut e = String::from_str("ROM too large: ");
            push_decimal(&mut e, data.len());
            e.append(" bytes (max ");
            push_decimal(&mut e, MAX_ROM_BYTES);
            e.append(")");
            return Err(e);
        }
        let copy = data.clone();
        proof {
            assert(copy@ =~= data@);
        }
        let cart = match Cartridge::load(copy) {
            Ok(c) => c,
            Err(e) => return Err(e),
        };
        let (cpu, is_cgb, display) = machine_for_game(cart, data.as_slice());
        self.cpu = Some(cpu);
        self.status = EmulatorStatus::Ready;
        self.is_cgb = is_cgb;
        self.game_title = display.clone();
        self.rom_data = Some(data);
        self.palette_idx = None;
        Ok(display)
    }
    /// Start the loaded game: load the BIOS if one was uploaded, switch the
    /// LCD on with the standard palette, and run one frame to settle.
    /// Starting a running machine does nothing.
    pub fn start(&mut self) -> (r: Result<(), String>)
        requires
            old(self).wf(),
            old(self).cpu matches Some(c) ==> frame_limit(c.cycles) <= u64::MAX,
        ensures
            final(self).wf(),
            old(self).status == EmulatorStatus::NoRom ==> *final(self) == *old(self) && (r matches Err(e)
                && e@ == "No ROM loaded"@),
            old(self).status == EmulatorStatus::Running ==> *final(self) == *old(self) && r is Ok,
            old(self).status == EmulatorStatus::Ready && old(self).cpu is None ==> *final(self) == *old(self)
                && (r matches Err(e) && e@ == "CPU not initialised"@),
            old(self).status == EmulatorStatus::Ready ==> (old(self).cpu matches Some(c) ==> {
                if old(self).bios is Some && old(self).bios->0@.len() != MAX_BIOS_BYTES {
                    &&& *final(self) == (EmulatorState { cpu: final(self).cpu, ..*old(self) })
                    &&& final(self).cpu matches Some(c2) && c2.machine() == c.machine()
                    &&& r matches Err(e) && e@ == "BIOS must be exactly 256 bytes, got "@ + decimal(
                        old(self).bios->0@.len(),
                    )
                } else {
                    &&& r is Ok
                    &&& *final(self) == (EmulatorState {
                        cpu: final(self).cpu,
                        status: EmulatorStatus::Running,
                        ..*old(self)
                    })
                    &&& final(self).cpu matches Some(c2) && ran_one_frame(
                        with_mem(c.machine(), lcd_on(with_bios(c.mmu@, old(self).bios))),
                        c2,
                    )
                }
            }),
    {
        match self.status {
            EmulatorStatus::NoRom => {
                return Err(String::from_str("No ROM loaded"));
            },
            EmulatorStatus::Running => {
                return Ok(());
            },
            EmulatorStatus::Ready => {},
        }
        let mut cpu = match self.cpu.take() {
            Some(c) => c,
            None => {
                return Err(String::from_str("CPU not initialised"));
            },
        };
        match &self.bios {
            Some(b) => match cpu.mmu.load_bios(b.as_slice()) {
                Ok(()) => {},
                Err(e) => {
                    self.cpu = Some(cpu);
                    return Err(e);
                },
            },
            None => {},
        }
        cpu.mmu.write_byte(LCDC_ADDR, 0x91);
        cpu.mmu.write_byte(BGP_ADDR, 0xE4);
        self.cpu = Some(cpu);
        self.status = EmulatorStatus::Running;
        self.run_frame_inner();
        Ok(())
    }

    /// Run the machine, if there is one, for one frame.
    fn run_frame_inner(&mut self)
        requires
            old(self).wf(),
            old(self).cpu matches Some(c) ==> frame_limit(c.cycles) <= u64::MAX,
        ensures
            final(self).wf(),
            *final(self) == (EmulatorState { cpu: final(self).cpu, ..*old(self) }),
            old(self).cpu is None ==> final(self).cpu is None,
            old(self).cpu matches Some(c) ==> final(self).cpu matches Some(c2) && ran_one_frame(c.machine(), c2),
    {
        match self.cpu.take() {
            Some(mut cpu) => {
                let limit = cpu.cycles + CYCLES_PER_FRAME + 456;
                run_until_frame_exec(&mut cpu, limit);
                self.cpu = Some(cpu);
            },
            None => {},
        }
    }

    /// Run one frame and return the screen as RGB24 bytes (three per pixel,
    /// row by row); only a running emulator runs.
    pub fn run_frame(&mut self) -> (r: Result<Vec<u8>, String>)
        requires
            old(self).wf(),
            old(self).cpu matches Some(c) ==> frame_limit(c.cycles) <= u64::MAX,
        ensures
            final(self).wf(),
            old(self).status != EmulatorStatus::Running ==> *final(self) == *old(self) && (r matches Err(e)
                && e@ == "Emulator is not running"@),
            old(self).status == EmulatorStatus::Running && old(self).cpu is None ==> *final(self) == *old(self)
                && (r matches Err(e) && e@ == "CPU not initialised"@),
            old(self).status == EmulatorStatus::Running ==> (old(self).cpu matches Some(c) ==> {
                &&& *final(self) == (EmulatorState { cpu: final(self).cpu, ..*old(self) })
                &&& final(self).cpu matches Some(c2) && ran_one_frame(c.machine(), c2) && (r matches Ok(
                    bytes,
                ) && bytes@ == rgb_bytes(c2.ppu@.framebuffer))
            }),
    {
        if self.status != EmulatorStatus::Running {
            return Err(String::from_str("Emulator is not running"));
        }
        self.run_frame_inner();
        match &self.cpu {
            Some(cpu) => Ok(rgb24(cpu.ppu.framebuffer_ref())),
            None => Err(String::from_str("CPU not initialised")),
        }
    }
    /// Select the next manual palette (the first after the game's own),
    /// wrapping after the last.
    pub fn palette_next(&mut self)
        requires
            old(self).wf(),
        ensures
            final(self).wf(),
            final(self).palette_idx == Some(next_palette(old(self).palette_idx)),
            *final(self) == (EmulatorState { cpu: final(self).cpu, palette_idx: final(self).palette_idx, ..*old(self) }),
            old(self).cpu is None ==> final(self).cpu is None,
            old(self).cpu matches Some(c) ==> final(self).cpu matches Some(c2) && with_manual_palette(
                c,
                c2,
                final(self).palette_idx->0 as int,
            ),
    {
        let idx = match self.palette_idx {
            None => 0,
            Some(i) => (i + 1) % PALETTE_COUNT,
        };
        self.palette_idx = Some(idx);
        self.apply_current_palette();
    }

    /// Select the previous manual palette (the last after the game's own),
    /// wrapping before the first.
    pub fn palette_prev(&mut self)
        requires
            old(self).wf(),
        ensures
            final(self).wf(),
            final(self).palette_idx == Some(prev_palette(old(self).palette_idx)),
            *final(self) == (EmulatorState { cpu: final(self).cpu, palette_idx: final(self).palette_idx, ..*old(self) }),
            old(self).cpu is None ==> final(self).cpu is None,
            old(self).cpu matches Some(c) ==> final(self).cpu matches Some(c2) && with_manual_palette(
                c,
                c2,
                final(self).palette_idx->0 as int,
            ),
    {
        let n = PALETTE_COUNT;
        let idx = match self.palette_idx {
            None => n - 1,
            Some(0) => n - 1,
            Some(i) => i - 1,
        };
        self.palette_idx = Some(idx);
        self.apply_current_palette();
    }

    /// Go back to the game's own colours: no manual palette, not forced; a
    /// DMG game is coloured again as the boot ROM does and gets the palettes
    /// detected for its shown name.
    pub fn palette_game(&mut self)
        requires
            old(self).wf(),
        ensures
            final(self).wf(),
            final(self).palette_idx is None,
            *final(self) == (EmulatorState { cpu: final(self).cpu, palette_idx: None, ..*old(self) }),
            old(self).cpu is None ==> final(self).cpu is None,
            old(self).cpu matches Some(c) ==> final(self).cpu matches Some(c2) && {
                let m = c.mmu@;
                let m2 = if !old(self).is_cgb && old(self).rom_data is Some {
                    let (bg, obj) = bios_palettes(old(self).rom_data->0@, m.bg_palette.ram, m.obj_palette.ram);
                    MmuView {
                        bg_palette: PaletteView { ram: bg, ..m.bg_palette },
                        obj_palette: PaletteView { ram: obj, ..m.obj_palette },
                        ..m
                    }
                } else {
                    m
                };
                &&& c2.wf()
                &&& c2.machine() == (MachineView {
                    core: CpuState { mem: m2, ..c.state() },
                    ppu: PpuView { force_dmg_palette: false, dmg: c2.ppu@.dmg, ..c.ppu@ },
                    ..c.machine()
                })
                &&& if old(self).is_cgb {
                    c2.ppu@.dmg == c.ppu@.dmg
                } else {
                    game_palette(c2.ppu@.dmg, old(self).game_title@)
                }
            },
    {
        self.palette_idx = None;
        match self.cpu.take() {
            Some(mut cpu) => {
                cpu.ppu.set_force_dmg_palette(false);
                if !self.is_cgb {
                    match &self.rom_data {
                        Some(data) => cpu.mmu.apply_bios_palettes(data.as_slice()),
                        None => {},
                    }
                    let p = match detect_game_palette(self.game_title.as_str()) {
                        Some(p) => p,
                        None => default_palette(),
                    };
                    cpu.ppu.set_dmg_palettes(p);
                }
                self.cpu = Some(cpu);
            },
            None => {},
        }
    }

    /// The name of the palette in use.
    pub fn palette_name(&self) -> (r: String)
        requires
            self.wf(),
        ensures
            r@ == match self.palette_idx {
                None => if self.is_cgb {
                    "Native"@
                } else {
                    "Game Palette"@
                },
                Some(i) => MANUAL_PALETTE_NAMES[i as int]@,
            },
    {
        match self.palette_idx {
            None => if self.is_cgb {
                String::from_str("Native")
            } else {
                String::from_str("Game Palette")
            },
            Some(i) => String::from_str(MANUAL_PALETTE_NAMES[i]),
        }
    }

    /// The manual palette in use, if any.
    pub fn palette_index(&self) -> (r: Option<usize>)
        ensures
            r == self.palette_idx,
    {
        self.palette_idx
    }

    /// The number of manual palettes.
    pub fn palette_count(&self) -> (r: usize)
        ensures
            r == PALETTE_COUNT,
    {
        PALETTE_COUNT
    }

    /// Force the selected manual palette on the PPU.
    fn apply_current_palette(&mut self)
        requires
            old(self).wf(),
        ensures
            final(self).wf(),
            *final(self) == (EmulatorState { cpu: final(self).cpu, ..*old(self) }),
            old(self).cpu is None || old(self).palette_idx is None ==> *final(self) == *old(self),
            old(self).palette_idx matches Some(i) ==> (old(self).cpu matches Some(c) ==> final(self).cpu matches Some(c2)
                && with_manual_palette(c, c2, i as int)),
    {
        match self.palette_idx {
            Some(idx) => match self.cpu.take() {
                Some(mut cpu) => {
                    let (_, p) = manual_palette(idx);
                    cpu.ppu.set_dmg_palettes(p);
                    cpu.ppu.set_force_dmg_palette(true);
                    self.cpu = Some(cpu);
                },
                None => {},
            },
            None => {},
        }
    }

    /// Press a button on a running emulator.
    pub fn press(&mut self, button: Button) -> (r: Result<(), String>)
        requires
            old(self).wf(),
        ensures
            final(self).wf(),
            old(self).status != EmulatorStatus::Running ==> *final(self) == *old(self) && (r matches Err(e)
                && e@ == "Emulator is not running"@),
            old(self).status == EmulatorStatus::Running && old(self).cpu is None ==> *final(self) == *old(self)
                && (r matches Err(e) && e@ == "CPU not initialised"@),
            old(self).status == EmulatorStatus::Running ==> (old(self).cpu matches Some(c) ==> {
                &&& r is Ok
                &&& *final(self) == (EmulatorState { cpu: final(self).cpu, ..*old(self) })
                &&& final(self).cpu matches Some(c2) && c2.wf() && c2.machine() == (MachineView {
                    joypad: JoypadView {
                        pressed: c.joypad@.pressed.update(button.index_spec(), true),
                        irq_pending: c.joypad@.irq_pending || !c.joypad@.pressed[button.index_spec()],
                    },
                    ..c.machine()
                })
            }),
    {
        if self.status != EmulatorStatus::Running {
            return Err(String::from_str("Emulator is not running"));
        }
        match self.cpu.take() {
            Some(mut cpu) => {
                cpu.button_press(button);
                self.cpu = Some(cpu);
                Ok(())
            },
            None => Err(String::from_str("CPU not initialised")),
        }
    }

    /// Release a button on a running emulator.
    pub fn release(&mut self, button: Button) -> (r: Result<(), String>)
        requires
            old(self).wf(),
        ensures
            final(self).wf(),
            old(self).status != EmulatorStatus::Running ==> *final(self) == *old(self) && (r matches Err(e)
                && e@ == "Emulator is not running"@),
            old(self).status == EmulatorStatus::Running && old(self).cpu is None ==> *final(self) == *old(self)
                && (r matches Err(e) && e@ == "CPU not initialised"@),
            old(self).status == EmulatorStatus::Running ==> (old(self).cpu matches Some(c) ==> {
                &&& r is Ok
                &&& *final(self) == (EmulatorState { cpu: final(self).cpu, ..*old(self) })
                &&& final(self).cpu matches Some(c2) && c2.wf() && c2.machine() == (MachineView {
                    joypad: JoypadView {
                        pressed: c.joypad@.pressed.update(button.index_spec(), false),
                        ..c.joypad@
                    },
                    ..c.machine()
                })
            }),
    {
        if self.status != EmulatorStatus::Running {
            return Err(String::from_str("Emulator is not running"));
        }
        match self.cpu.take() {
            Some(mut cpu) => {
                cpu.button_release(button);
                self.cpu = Some(cpu);
                Ok(())
            },
            None => Err(String::from_str("CPU not initialised")),
        }
    }
}

impl Default for EmulatorState {
    fn default() -> (r: Self)
        ensures
            r.wf(),
            r.cpu is None,
            r.status == EmulatorStatus::NoRom,
            r.bios is None,
            r.rom_data is None,
            r.palette_idx is None,
    {
        Self::new()
    }
}

} // verus!
