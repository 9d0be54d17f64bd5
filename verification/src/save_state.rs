//! Save states: the machine's registers, memory and devices captured, and
//! put back into a machine.

use crate::apu::{Apu, ApuView, MixInput};
use crate::cpu::registers::Registers;
use crate::cpu::{Cpu, MachineView};
use crate::input::Joypad;
use crate::mmu::{restored, saved_from, MmuState};
use crate::ppu::Ppu;
use crate::text::{decimal, push_decimal};
use crate::timer::Timer;
use vstd::prelude::*;
use vstd::string::StringExecFns;

verus! {

/// The save-state format version.
pub const SAVE_STATE_VERSION: u32 = 2;

/// A snapshot of the machine.
pub struct SaveState {
    pub version: u32,
    pub regs: Registers,
    pub mmu: MmuState,
    pub ppu: Ppu,
    pub timer: Timer,
    pub joypad: Joypad,
    pub apu: Apu,
    pub cycles: u64,
    pub ime: bool,
    pub halted: bool,
}

/// `s` is a snapshot of the machine `cpu`.
pub open spec fn snapshot_of(s: SaveState, cpu: Cpu) -> bool {
    &&& s.regs == cpu.regs
    &&& saved_from(s.mmu, cpu.mmu@)
    &&& s.ppu@ == cpu.ppu@
    &&& s.timer@ == cpu.timer@
    &&& s.joypad@ == cpu.joypad@
    &&& s.apu@ == cpu.apu@
    &&& s.cycles == cpu.cycles
    &&& s.ime == cpu.ime
    &&& s.halted == cpu.halted
}

/// `after` is the machine `before` with the snapshot `s` put back: all of
/// it but the memory's unsaved parts (cartridge, palettes, DMA state) and
/// the serial output, and the audio unit without its record of mixer inputs.
pub open spec fn restored_from(after: Cpu, before: Cpu, s: SaveState) -> bool {
    &&& after.regs == s.regs
    &&& after.mmu@ == restored(before.mmu@, s.mmu)
    &&& after.ppu@ == s.ppu@
    &&& after.timer@ == s.timer@
    &&& after.joypad@ == s.joypad@
    &&& after.apu@ == (ApuView { mix_log: Seq::<MixInput>::empty(), ..s.apu@ })
    &&& after.cycles == s.cycles
    &&& after.ime == s.ime
    &&& after.halted == s.halted
    &&& after.serial == before.serial
}

/// A snapshot put back into the machine it was taken from gives that
/// machine again, except that the audio unit's record of mixer inputs is
/// emptied.
pub proof fn lemma_capture_then_restore(cpu: Cpu, s: SaveState, after: Cpu)
    requires
        cpu.wf(),
        snapshot_of(s, cpu),
        restored_from(after, cpu, s),
    ensures
        after.machine() == (MachineView {
            apu: ApuView { mix_log: Seq::<MixInput>::empty(), ..cpu.apu@ },
            ..cpu.machine()
        }),
{
    assert(after.mmu@ == cpu.mmu@);
}

/// A snapshot put back into any machine gives it the captured machine's
/// registers, counters, devices (the audio unit without its record of mixer
/// inputs) and saved memory: every byte of VRAM, WRAM and its echo, OAM,
/// HRAM and IE reads as it did in the captured machine. The cartridge,
/// palettes and serial output stay those of the machine restored into.
pub proof fn lemma_restore_into_other(cpu: Cpu, s: SaveState, other: Cpu, after: Cpu)
    requires
        cpu.wf(),
        other.wf(),
        snapshot_of(s, cpu),
        restored_from(after, other, s),
    ensures
        after.regs == cpu.regs,
        after.cycles == cpu.cycles,
        after.ime == cpu.ime,
        after.halted == cpu.halted,
        after.ppu@ == cpu.ppu@,
        after.timer@ == cpu.timer@,
        after.joypad@ == cpu.joypad@,
        after.apu@ == (ApuView { mix_log: Seq::<MixInput>::empty(), ..cpu.apu@ }),
        after.mmu@.cgb_mode == cpu.mmu@.cgb_mode,
        after.mmu@.double_speed == cpu.mmu@.double_speed,
        after.mmu@.io == cpu.mmu@.io,
        after.mmu@.vram_bank == cpu.mmu@.vram_bank && after.mmu@.wram_bank == cpu.mmu@.wram_bank,
        after.mmu@.cart == other.mmu@.cart,
        after.serial == other.serial,
        forall|a: u16|
            (0x8000 <= a <= 0x9FFF || 0xC000 <= a <= 0xFE9F || 0xFF80 <= a) ==> #[trigger] after.mmu@.read(a)
                == cpu.mmu@.read(a),
{
    assert forall|a: u16| (0x8000 <= a <= 0x9FFF || 0xC000 <= a <= 0xFE9F || 0xFF80 <= a) implies #[trigger] after.mmu@.read(
        a,
    ) == cpu.mmu@.read(a) by {
        reveal(crate::mmu::MmuView::read);
    }
}

impl SaveState {
    /// The memory has a machine's sizes and bank selections, and the devices
    /// keep their invariants.
    pub open spec fn wf(&self) -> bool {
        &&& self.mmu.wf()
        &&& self.ppu.wf()
        &&& self.joypad.wf()
        &&& self.apu.wf()
    }

    /// Whether the snapshot's memory and devices keep their invariants (`wf`).
    pub fn is_consistent(&self) -> (r: bool)
        ensures
            r == self.wf(),
    {
        proof {
            self.joypad.lemma_wf();
        }
        self.mmu.is_consistent() && self.ppu.is_consistent() && self.apu.is_consistent()
    }

    /// A snapshot of `cpu`, in the current format version.
    pub fn capture(cpu: &Cpu) -> (r: Self)
        requires
            cpu.wf(),
        ensures
            r.wf(),
            r.version == SAVE_STATE_VERSION,
            snapshot_of(r, *cpu),
    {
        SaveState {
            version: SAVE_STATE_VERSION,
            regs: cpu.regs,
            mmu: MmuState::from_mmu(&cpu.mmu),
            ppu: cpu.ppu.snapshot(),
            timer: cpu.timer,
            joypad: cpu.joypad,
            apu: cpu.apu.snapshot(),
            cycles: cpu.cycles,
            ime: cpu.ime,
            halted: cpu.halted,
        }
    }

    /// Put the snapshot back into `cpu`; a snapshot of another format
    /// version is refused and `cpu` left as it was.
    pub fn restore(self, cpu: &mut Cpu) -> (r: Result<(), String>)
        requires
            old(cpu).wf(),
            self.wf(),
        ensures
            final(cpu).wf(),
            self.version != SAVE_STATE_VERSION ==> *final(cpu) == *old(cpu) && (r matches Err(e) && e@
                == "Save state version mismatch: got "@ + decimal(self.version as nat) + ", expected 2"@),
            self.version == SAVE_STATE_VERSION ==> r is Ok && restored_from(*final(cpu), *old(cpu), self),
    {
        if self.version != SAVE_STATE_VERSION {
            let mut e = String::from_str("Save state version mismatch: got ");
            push_decimal(&mut e, self.version as usize);
            e.append(", expected 2");
            return Err(e);
        }
        cpu.regs = self.regs;
        cpu.cycles = self.cycles;
        cpu.ime = self.ime;
        cpu.halted = self.halted;
        cpu.ppu = self.ppu;
        cpu.timer = self.timer;
        cpu.joypad = self.joypad;
        cpu.apu = self.apu;
        cpu.apu.drain_mix_log();
        self.mmu.restore_into_mmu(&mut cpu.mmu);
        Ok(())
    }
}

} // verus!
