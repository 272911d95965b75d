use vstd::prelude::*;
use crate::interrupts;

verus! {

/// The eight buttons. The low four are the direction pad, the high four the actions.
#[derive(Clone, Copy, PartialEq, Eq, Debug)]
pub enum Button {
    Right,
    Left,
    Up,
    Down,
    A,
    B,
    Select,
    Start,
}

pub const SELECT_ACTIONS: u8 = 0x20;
pub const SELECT_DPAD: u8 = 0x10;
pub const SELECTABLE: u8 = 0x30;

impl Button {
    /// The button's bit in the held-button byte.
    pub open spec fn mask_spec(self) -> u8 {
        match self {
            Button::Right => 0x01,
            Button::Left => 0x02,
            Button::Up => 0x04,
            Button::Down => 0x08,
            Button::A => 0x10,
            Button::B => 0x20,
            Button::Select => 0x40,
            Button::Start => 0x80,
        }
    }

    pub fn mask(&self) -> (r: u8)
        ensures
            r == self.mask_spec(),
    {
        match self {
            Button::Right => 0x01,
            Button::Left => 0x02,
            Button::Up => 0x04,
            Button::Down => 0x08,
            Button::A => 0x10,
            Button::B => 0x20,
            Button::Select => 0x40,
            Button::Start => 0x80,
        }
    }
}

/// P1: the game selects a row (direction pad, actions, both or neither) by
/// clearing its bit, and reads the held buttons of the selected rows as zeros.
pub struct Joypad {
    pub select: u8,
    pub buttons: u8,
}

/// What P1 reads for a row selection and a held-button byte.
pub open spec fn p1_value(select: u8, buttons: u8) -> u8 {
    let dpad: u8 = if select & SELECT_DPAD == 0 { buttons & 0x0F } else { 0 };
    let actions: u8 = if select & SELECT_ACTIONS == 0 { buttons >> 4 } else { 0 };
    select | 0xC0 | (0x0F & !(dpad | actions))
}

impl Joypad {
    pub open spec fn read_spec(self) -> u8 {
        p1_value(self.select, self.buttons)
    }

    pub open spec fn wf(self) -> bool {
        self.select & !SELECTABLE == 0
    }

    pub open spec fn set_spec(self, button: Button, pressed: bool) -> (Joypad, u8) {
        let buttons = if pressed {
            self.buttons | button.mask_spec()
        } else {
            self.buttons & !button.mask_spec()
        };
        let after = Joypad { buttons, ..self };
        let interrupt = if self.read_spec() & !after.read_spec() & 0x0F != 0 {
            interrupts::JOYPAD
        } else {
            0
        };
        (after, interrupt)
    }

    pub fn new() -> (j: Self)
        ensures
            j == (Joypad { select: SELECTABLE, buttons: 0 }),
            j.wf(),
    {
        proof {
            assert(0x30u8 & !0x30u8 == 0) by (bit_vector);
        }
        Joypad { select: SELECTABLE, buttons: 0 }
    }

    pub fn read(&self) -> (r: u8)
        ensures
            r == self.read_spec(),
    {
        let dpad: u8 = if self.select & SELECT_DPAD == 0 { self.buttons & 0x0F } else { 0 };
        let actions: u8 = if self.select & SELECT_ACTIONS == 0 { self.buttons >> 4 } else { 0 };
        self.select | 0xC0 | (0x0F & !(dpad | actions))
    }

    /// Only the two row-select bits are writable.
    pub fn write(&mut self, value: u8)
        ensures
            *final(self) == (Joypad { select: value & SELECTABLE, ..*old(self) }),
            final(self).wf(),
    {
        proof {
            assert((value & 0x30) & !0x30u8 == 0) by (bit_vector);
        }
        self.select = value & SELECTABLE;
    }

    /// Presses or releases a button; returns the joypad interrupt when a button
    /// in a selected row goes from released to pressed.
    pub fn set(&mut self, button: Button, pressed: bool) -> (r: u8)
        ensures
            (*final(self), r) == old(self).set_spec(button, pressed),
    {
        let before = self.read();
        let mask = button.mask();
        if pressed {
            self.buttons = self.buttons | mask;
        } else {
            self.buttons = self.buttons & !mask;
        }
        let after = self.read();
        if before & !after & 0x0F != 0 {
            interrupts::JOYPAD
        } else {
            0
        }
    }
}

/// Releasing a button never raises the joypad interrupt.
pub proof fn law_release_never_interrupts(j: Joypad, button: Button)
    ensures
        j.set_spec(button, false).1 == 0,
{
    let m = button.mask_spec();
    let s = j.select;
    let b = j.buttons;
    let b2 = b & !m;
    assert(p1_value(s, b) & !p1_value(s, b2) & 0x0F == 0) by (bit_vector)
        requires
            b2 == b & !m,
            p1_value(s, b) == s | 0xC0 | (0x0F & !((if s & 0x10 == 0 { b & 0x0F } else { 0 }) | (
            if s & 0x20 == 0 { b >> 4 } else { 0 }))),
            p1_value(s, b2) == s | 0xC0 | (0x0F & !((if s & 0x10 == 0 { b2 & 0x0F } else { 0 }) | (
            if s & 0x20 == 0 { b2 >> 4 } else { 0 })));
}

/// A held button reads as 0 in its row's bit exactly when that row is selected;
/// bits 6 and 7 always read 1.
pub proof fn law_selected_row_shows_held_buttons(j: Joypad)
    requires
        j.wf(),
    ensures
        j.read_spec() & 0xC0 == 0xC0,
        j.select & SELECT_DPAD == 0 && j.select & SELECT_ACTIONS != 0 ==> j.read_spec() & 0x0F
            == 0x0F & !(j.buttons & 0x0F),
        j.select & SELECT_DPAD != 0 && j.select & SELECT_ACTIONS == 0 ==> j.read_spec() & 0x0F
            == 0x0F & !(j.buttons >> 4),
        j.select & SELECT_DPAD != 0 && j.select & SELECT_ACTIONS != 0 ==> j.read_spec() & 0x0F
            == 0x0F,
{
    let s = j.select;
    let b = j.buttons;
    let r = j.read_spec();
    assert(r & 0xC0 == 0xC0
        && (s & 0x10 == 0 && s & 0x20 != 0 ==> r & 0x0F == 0x0F & !(b & 0x0F))
        && (s & 0x10 != 0 && s & 0x20 == 0 ==> r & 0x0F == 0x0F & !(b >> 4))
        && (s & 0x10 != 0 && s & 0x20 != 0 ==> r & 0x0F == 0x0F)) by (bit_vector)
        requires
            r == s | 0xC0 | (0x0F & !((if s & 0x10 == 0 { b & 0x0F } else { 0 }) | (if s & 0x20
                == 0 { b >> 4 } else { 0 }))),
            s & !0x30u8 == 0;
}

} // verus!
