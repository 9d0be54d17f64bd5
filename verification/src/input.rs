//! The joypad: eight buttons read through the JOYP register (0xFF00).
//!
//! Writing bits 5-4 selects a group (bit 5 low: A, B, Select, Start; bit 4
//! low: Right, Left, Up, Down). Reading gives bits 7-6 high, the select
//! bits, and in bits 3-0 the selected buttons, low when pressed. A Joypad
//! interrupt is due when a button goes from released to pressed.

use crate::mmu::{lemma_joyp_read, Mmu, MmuView};
use vstd::prelude::*;

verus! {

pub const JOYP_ADDR: u16 = 0xFF00;

#[derive(Debug, Clone, Copy, PartialEq, Eq, Structural)]
pub enum Button {
    A,
    B,
    Select,
    Start,
    Right,
    Left,
    Up,
    Down,
}

impl Button {
    /// All eight buttons in index order.
    pub const ALL: [Button; 8] = [
        Button::A,
        Button::B,
        Button::Select,
        Button::Start,
        Button::Right,
        Button::Left,
        Button::Up,
        Button::Down,
    ];

    /// The button's index: A, B, Select, Start, Right, Left, Up, Down are 0-7.
    pub open spec fn index_spec(self) -> int {
        match self {
            Button::A => 0,
            Button::B => 1,
            Button::Select => 2,
            Button::Start => 3,
            Button::Right => 4,
            Button::Left => 5,
            Button::Up => 6,
            Button::Down => 7,
        }
    }
}

fn button_index(b: Button) -> (r: usize)
    ensures
        r == b.index_spec(),
{
    match b {
        Button::A => 0,
        Button::B => 1,
        Button::Select => 2,
        Button::Start => 3,
        Button::Right => 4,
        Button::Left => 5,
        Button::Up => 6,
        Button::Down => 7,
    }
}

#[derive(Clone, Copy, Debug)]
pub struct Joypad {
    pressed: [bool; 8],
    /// Set by a new press; the next `sync` consumes it.
    pub irq_pending: bool,
}

pub struct JoypadView {
    pub pressed: Seq<bool>,
    pub irq_pending: bool,
}

impl View for Joypad {
    type V = JoypadView;

    closed spec fn view(&self) -> JoypadView {
        JoypadView { pressed: self.pressed@, irq_pending: self.irq_pending }
    }
}

/// Bit `i` (0-3) of JOYP reads low: the button of index `i` with the action
/// group selected, or the one of index `i + 4` with the d-pad selected.
pub open spec fn line_low(pressed: Seq<bool>, select: u8, i: int) -> bool {
    (select & 0x20 == 0 && pressed[i]) || (select & 0x10 == 0 && pressed[i + 4])
}

/// JOYP as read with select byte `select`: bits 7-6 high, bits 5-4 from
/// `select`, bits 3-0 high unless their line is low.
pub open spec fn joyp_value(pressed: Seq<bool>, select: u8) -> u8 {
    (0xC0 + (select & 0x30) + 15 - (if line_low(pressed, select, 0) { 1int } else { 0 }) - (if line_low(
        pressed,
        select,
        1,
    ) { 2int } else { 0 }) - (if line_low(pressed, select, 2) { 4int } else { 0 }) - (if line_low(
        pressed,
        select,
        3,
    ) { 8int } else { 0 })) as u8
}

/// One `Joypad::sync`: JOYP gets the current button byte; an interrupt is
/// due when a line went from high to low while a press is pending.
pub open spec fn sync_spec(j: JoypadView, m: MmuView) -> (JoypadView, MmuView, bool) {
    let current = m.io[0];
    let updated = joyp_value(j.pressed, current);
    (
        JoypadView { irq_pending: false, ..j },
        MmuView { io: m.io.update(0, updated), ..m },
        (!updated & current) & 0x0F != 0 && j.irq_pending,
    )
}

/// Pressing a released button and releasing it again leaves every button
/// as it was.
pub proof fn lemma_press_then_release(pressed: Seq<bool>, button: Button)
    requires
        pressed.len() == 8,
        !pressed[button.index_spec()],
    ensures
        pressed.update(button.index_spec(), true).update(button.index_spec(), false) == pressed,
{
    assert(pressed.update(button.index_spec(), true).update(button.index_spec(), false) =~= pressed);
}

/// JOYP keeps the select bits it was given: reading it back with its own
/// value as the selection gives the same byte, so once `write_joyp` or `sync`
/// has stored a value, `read_joyp` shows that same button state.
pub proof fn lemma_joyp_read_back(pressed: Seq<bool>, select: u8)
    ensures
        joyp_value(pressed, joyp_value(pressed, select)) == joyp_value(pressed, select),
{
    let lo: u8 = (15 - (if line_low(pressed, select, 0) { 1int } else { 0 }) - (if line_low(
        pressed,
        select,
        1,
    ) { 2int } else { 0 }) - (if line_low(pressed, select, 2) { 4int } else { 0 }) - (if line_low(
        pressed,
        select,
        3,
    ) { 8int } else { 0 })) as u8;
    let v = joyp_value(pressed, select);
    assert(v == (0xC0 + (select & 0x30) + lo) as u8) by {
        crate::bits::lemma_u8(select);
    }
    assert(lo < 16);
    assert(((0xC0 + (select & 0x30) + lo) as u8) & 0x30 == select & 0x30
        && ((0xC0 + (select & 0x30) + lo) as u8) & 0x20 == select & 0x20
        && ((0xC0 + (select & 0x30) + lo) as u8) & 0x10 == select & 0x10) by (bit_vector)
        requires
            lo < 16,
    ;
}

impl Joypad {
    pub open spec fn wf(&self) -> bool {
        self@.pressed.len() == 8
    }

    /// Every joypad holds one state per button.
    pub proof fn lemma_wf(&self)
        ensures
            self.wf(),
    {
    }

    /// Nothing pressed, no interrupt pending.
    pub fn new() -> (r: Self)
        ensures
            r.wf(),
            r@.pressed == Seq::new(8, |i: int| false),
            !r@.irq_pending,
    {
        let r = Joypad { pressed: [false; 8], irq_pending: false };
        assert(r@.pressed =~= Seq::new(8, |i: int| false));
        r
    }

    /// Which buttons are held, in index order (A, B, Select, Start, Right,
    /// Left, Up, Down).
    pub fn pressed_buttons(&self) -> (r: [bool; 8])
        ensures
            r@ == self@.pressed,
    {
        self.pressed
    }

    /// A joypad with the given buttons held (in index order) and pending flag.
    pub fn from_state(pressed: [bool; 8], irq_pending: bool) -> (r: Self)
        ensures
            r.wf(),
            r@ == (JoypadView { pressed: pressed@, irq_pending }),
    {
        Joypad { pressed, irq_pending }
    }

    /// Press a button; a button that was released makes an interrupt pending.
    pub fn press(&mut self, button: Button)
        requires
            old(self).wf(),
        ensures
            final(self).wf(),
            final(self)@.pressed == old(self)@.pressed.update(button.index_spec(), true),
            final(self)@.irq_pending == (old(self)@.irq_pending || !old(self)@.pressed[button.index_spec()]),
    {
        let i = button_index(button);
        if !self.pressed[i] {
            self.pressed[i] = true;
            self.irq_pending = true;
        } else {
            assert(self@.pressed =~= old(self)@.pressed.update(button.index_spec(), true));
        }
    }

    /// Release a button.
    pub fn release(&mut self, button: Button)
        requires
            old(self).wf(),
        ensures
            final(self).wf(),
            final(self)@ == (JoypadView {
                pressed: old(self)@.pressed.update(button.index_spec(), false),
                ..old(self)@
            }),
    {
        let i = button_index(button);
        self.pressed[i] = false;
    }

    /// Whether a button is held.
    pub fn is_pressed(&self, button: Button) -> (r: bool)
        requires
            self.wf(),
        ensures
            r == self@.pressed[button.index_spec()],
    {
        self.pressed[button_index(button)]
    }

    /// The byte JOYP reads for the group selected in the stored JOYP.
    pub fn read_joyp(&self, mmu: &Mmu) -> (r: u8)
        requires
            self.wf(),
            mmu.wf(),
        ensures
            r == joyp_value(self@.pressed, mmu@.io[0]),
    {
        proof {
            lemma_joyp_read(mmu@);
        }
        let select = mmu.read_byte(JOYP_ADDR);
        self.joyp_for(select)
    }

    /// The byte JOYP reads when `select` holds the group selection (bits 5
    /// and 4, active low): the selected buttons read low when pressed.
    pub fn joyp_for(&self, select: u8) -> (r: u8)
        requires
            self.wf(),
        ensures
            r == joyp_value(self@.pressed, select),
    {
        let action_sel = select & 0x20 == 0;
        let dpad_sel = select & 0x10 == 0;
        let mut lo: u8 = 0x0F;
        if (action_sel && self.pressed[0]) || (dpad_sel && self.pressed[4]) {
            lo = lo - 1;
        }
        if (action_sel && self.pressed[1]) || (dpad_sel && self.pressed[5]) {
            lo = lo - 2;
        }
        if (action_sel && self.pressed[2]) || (dpad_sel && self.pressed[6]) {
            lo = lo - 4;
        }
        if (action_sel && self.pressed[3]) || (dpad_sel && self.pressed[7]) {
            lo = lo - 8;
        }
        proof {
            crate::bits::lemma_u8(select);
        }
        0xC0 + (select & 0x30) + lo
    }

    /// Consume the pending press: returns whether one was pending.
    pub fn take_pending(&mut self) -> (r: bool)
        ensures
            r == old(self)@.irq_pending,
            final(self)@ == (JoypadView { irq_pending: false, ..old(self)@ }),
    {
        let r = self.irq_pending;
        self.irq_pending = false;
        r
    }

    /// Store the CPU's select bits (5-4) in JOYP and bring its button lines
    /// up to date, so that JOYP reads the buttons of the newly selected group.
    pub fn write_joyp(&self, mmu: &mut Mmu, value: u8)
        requires
            old(mmu).wf(),
        ensures
            final(mmu).wf(),
            final(mmu)@ == (MmuView {
                io: old(mmu)@.io.update(0, joyp_value(self@.pressed, value & 0x30)),
                ..old(mmu)@
            }),
    {
        proof {
            self.lemma_wf();
        }
        let select = value & 0x30;
        let updated = self.joyp_for(select);
        mmu.set_joyp(updated);
    }

    /// Bring JOYP up to date with the buttons (the whole byte, button lines
    /// included) and consume the pending press. Returns whether a Joypad
    /// interrupt is due.
    pub fn sync(&mut self, mmu: &mut Mmu) -> (r: bool)
        requires
            old(self).wf(),
            old(mmu).wf(),
        ensures
            final(self).wf(),
            final(mmu).wf(),
            (final(self)@, final(mmu)@, r) == sync_spec(old(self)@, old(mmu)@),
    {
        proof {
            lemma_joyp_read(mmu@);
        }
        let current = mmu.read_byte(JOYP_ADDR);
        let updated = self.read_joyp(mmu);
        mmu.set_joyp(updated);
        let newly_pressed = (!updated & current) & 0x0F;
        let fire_irq = newly_pressed != 0 && self.irq_pending;
        self.irq_pending = false;
        fire_irq
    }
}

impl Default for Joypad {
    fn default() -> (r: Self)
        ensures
            r.wf(),
            r@.pressed == Seq::new(8, |i: int| false),
            !r@.irq_pending,
    {
        Self::new()
    }
}

} // verus!
