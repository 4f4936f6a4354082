use vstd::prelude::*;
use crate::memory::Memory;

verus! {

/// The P1/JOYP register (0xFF00) and the state of the eight buttons.
///
/// Bits 5 and 4 of `data` select the action and the direction group (0 = selected); bits 3..0
/// read the selected buttons (0 = pressed). `button_states` and `dpad_states` hold the four
/// buttons of each group in the same low-active form.
pub struct Joypad {
    pub data: u8,
    pub button_states: u8,
    pub dpad_states: u8,
}

#[derive(PartialEq, Eq, Structural, Clone, Copy, Debug, Hash)]
pub enum JoypadButton {
    A,
    B,
    Left,
    Right,
    Up,
    Down,
    Start,
    Select,
}

impl JoypadButton {
    /// Whether the button belongs to the action group (A, B, Select, Start).
    pub open spec fn is_action(self) -> bool {
        self is A || self is B || self is Select || self is Start
    }

    /// The button's bit in its group.
    pub open spec fn mask(self) -> u8 {
        match self {
            JoypadButton::A | JoypadButton::Right => 0x01,
            JoypadButton::B | JoypadButton::Left => 0x02,
            JoypadButton::Select | JoypadButton::Up => 0x04,
            JoypadButton::Start | JoypadButton::Down => 0x08,
        }
    }
}

/// What JOYP reads for a selection (bits 5..4) and the two groups' button states.
pub open spec fn joyp_value(selection: u8, buttons: u8, dpad: u8) -> u8 {
    if selection == 0x30 {
        0xFF
    } else {
        let r1 = 0xC0 | selection;
        let r2 = if selection & 0x20 == 0 { r1 | buttons } else { r1 };
        if selection & 0x10 == 0 { r2 | dpad } else { r2 }
    }
}

impl Joypad {
    /// Both groups keep their states in the low four bits, and JOYP agrees with the selection
    /// bits it holds and the button states.
    pub open spec fn consistent(&self) -> bool {
        &&& self.button_states < 16
        &&& self.dpad_states < 16
        &&& self.data == joyp_value(self.data & 0x30, self.button_states, self.dpad_states)
    }

    /// The joypad that `new` builds: no button pressed, no group selected.
    pub open spec fn started(&self) -> bool {
        &&& (self.data == 0xFF)
        &&& (self.button_states == 0xF)
        &&& (self.dpad_states == 0xF)
        &&& (self.consistent())
    }

    /// No button pressed and no button group selected (JOYP bits 4 and 5 set).
    pub fn new() -> (r: Self)
        ensures
            r.started(),
    {
        assert(0xFFu8 & 0x30u8 == 0x30u8) by (bit_vector);
        Self { data: 0xFF, button_states: 0xF, dpad_states: 0xF }
    }

    /// The joypad after `button` is pressed: its bit cleared in its group, JOYP recomputed
    /// for the same selection.
    pub open spec fn pressed(self, button: JoypadButton) -> Joypad {
        let buttons = if button.is_action() { self.button_states & !button.mask() } else { self.button_states };
        let dpad = if button.is_action() { self.dpad_states } else { self.dpad_states & !button.mask() };
        Joypad { data: joyp_value(self.data & 0x30, buttons, dpad), button_states: buttons, dpad_states: dpad }
    }

    /// The joypad after `button` is released: its bit set in its group, JOYP recomputed for
    /// the same selection.
    pub open spec fn released(self, button: JoypadButton) -> Joypad {
        let buttons = if button.is_action() { self.button_states | button.mask() } else { self.button_states };
        let dpad = if button.is_action() { self.dpad_states } else { self.dpad_states | button.mask() };
        Joypad { data: joyp_value(self.data & 0x30, buttons, dpad), button_states: buttons, dpad_states: dpad }
    }

    /// Presses a button (clears its bit in its group) and recomputes JOYP.
    pub fn press(&mut self, button: JoypadButton)
        ensures
            *final(self) == old(self).pressed(button),
            button.is_action() ==> final(self).button_states == old(self).button_states & !button.mask()
                && final(self).dpad_states == old(self).dpad_states,
            !button.is_action() ==> final(self).dpad_states == old(self).dpad_states & !button.mask()
                && final(self).button_states == old(self).button_states,
            final(self).data == joyp_value(old(self).data & 0x30, final(self).button_states, final(self).dpad_states),
            old(self).consistent() ==> final(self).consistent(),
    {
        proof {
            lemma_nibble_ops(self.button_states);
            lemma_nibble_ops(self.dpad_states);
        }
        match button {
            JoypadButton::A => self.button_states = self.button_states & !0x01u8,
            JoypadButton::B => self.button_states = self.button_states & !0x02u8,
            JoypadButton::Select => self.button_states = self.button_states & !0x04u8,
            JoypadButton::Start => self.button_states = self.button_states & !0x08u8,
            JoypadButton::Right => self.dpad_states = self.dpad_states & !0x01u8,
            JoypadButton::Left => self.dpad_states = self.dpad_states & !0x02u8,
            JoypadButton::Up => self.dpad_states = self.dpad_states & !0x04u8,
            JoypadButton::Down => self.dpad_states = self.dpad_states & !0x08u8,
        }
        self.update_joyp();
    }

    /// Releases a button (sets its bit in its group) and recomputes JOYP.
    pub fn release(&mut self, button: JoypadButton)
        ensures
            *final(self) == old(self).released(button),
            button.is_action() ==> final(self).button_states == old(self).button_states | button.mask()
                && final(self).dpad_states == old(self).dpad_states,
            !button.is_action() ==> final(self).dpad_states == old(self).dpad_states | button.mask()
                && final(self).button_states == old(self).button_states,
            final(self).data == joyp_value(old(self).data & 0x30, final(self).button_states, final(self).dpad_states),
            old(self).consistent() ==> final(self).consistent(),
    {
        proof {
            lemma_nibble_ops(self.button_states);
            lemma_nibble_ops(self.dpad_states);
        }
        match button {
            JoypadButton::A => self.button_states = self.button_states | 0x01,
            JoypadButton::B => self.button_states = self.button_states | 0x02,
            JoypadButton::Select => self.button_states = self.button_states | 0x04,
            JoypadButton::Start => self.button_states = self.button_states | 0x08,
            JoypadButton::Right => self.dpad_states = self.dpad_states | 0x01,
            JoypadButton::Left => self.dpad_states = self.dpad_states | 0x02,
            JoypadButton::Up => self.dpad_states = self.dpad_states | 0x04,
            JoypadButton::Down => self.dpad_states = self.dpad_states | 0x08,
        }
        self.update_joyp();
    }

    /// Recomputes JOYP from the selection bits and the button states.
    fn update_joyp(&mut self)
        ensures
            final(self).data == joyp_value(old(self).data & 0x30, old(self).button_states, old(self).dpad_states),
            final(self).button_states == old(self).button_states,
            final(self).dpad_states == old(self).dpad_states,
            old(self).button_states < 16 && old(self).dpad_states < 16 ==> final(self).consistent(),
    {
        let selection = self.data & 0x30;
        let b = self.button_states;
        let d = self.dpad_states;
        proof {
            let data = self.data;
            assert(data & 0x30 & 0x30 == data & 0x30) by (bit_vector);
            if b < 16 && d < 16 {
                lemma_joyp_keeps_selection(selection, b, d);
            }
        }
        if selection == 0x30 {
            self.data = 0xFF;
            return;
        }
        let mut result = 0xC0 | selection;
        if selection & 0x20 == 0 {
            result |= self.button_states;
        }
        if selection & 0x10 == 0 {
            result |= self.dpad_states;
        }
        if selection == 0x30 {
            result |= 0x0F;
        }
        self.data = result;
    }
}

/// Setting or clearing one of the low four bits keeps a value below 16.
proof fn lemma_nibble_ops(b: u8)
    by (bit_vector)
    ensures
        b < 16 ==> b & !0x01u8 < 16 && b & !0x02u8 < 16 && b & !0x04u8 < 16 && b & !0x08u8 < 16,
        b < 16 ==> b | 0x01 < 16 && b | 0x02 < 16 && b | 0x04 < 16 && b | 0x08 < 16,
{
}

/// JOYP reads back the selection it was computed from while both groups keep to their four
/// low bits.
proof fn lemma_joyp_keeps_selection(selection: u8, buttons: u8, dpad: u8)
    requires
        selection & 0x30 == selection,
        buttons < 16,
        dpad < 16,
    ensures
        joyp_value(selection, buttons, dpad) & 0x30 == selection,
{
    assert(selection & 0x30 == selection && buttons < 16 && dpad < 16 ==> {
        let v = if selection == 0x30 { 0xFFu8 } else {
            let r1 = 0xC0u8 | selection;
            let r2 = if selection & 0x20 == 0 { r1 | buttons } else { r1 };
            if selection & 0x10 == 0 { r2 | dpad } else { r2 }
        };
        v & 0x30 == selection
    }) by (bit_vector);
}

impl Memory for Joypad {
    open spec fn readable(&self, address: u16) -> bool {
        address == 0xFF00
    }

    open spec fn writable(&self, address: u16) -> bool {
        address == 0xFF00
    }

    fn read_byte(&self, address: u16) -> (r: u8)
        ensures
            r == self.data,
    {
        self.data
    }

    /// Only the selection bits are writable; JOYP is then recomputed.
    fn write_byte(&mut self, address: u16, value: u8)
        ensures
            final(self).data == joyp_value(value & 0x30, old(self).button_states, old(self).dpad_states),
            old(self).consistent() ==> final(self).consistent(),
            final(self).button_states == old(self).button_states,
            final(self).dpad_states == old(self).dpad_states,
    {
        let d = self.data;
        assert(((value & 0x30) | (d & 0xCF)) & 0x30 == value & 0x30) by (bit_vector);
        self.data = (value & 0x30) | (self.data & 0xCF);
        self.update_joyp();
    }
}

} // verus!

verus! {

/// Pressing a released button and releasing it again gives back the group's states, so JOYP
/// reads as before (`press` then `release`).
pub proof fn lemma_press_then_release(states: u8, button: JoypadButton)
    requires
        states & button.mask() != 0,
    ensures
        (states & !button.mask()) | button.mask() == states,
{
    let m = button.mask();
    assert((m == 1 || m == 2 || m == 4 || m == 8) && states & m != 0 ==> (states & !m) | m == states) by (bit_vector);
}

/// Releasing a button that was released before a press gives back the joypad as it was,
/// JOYP included.
pub proof fn lemma_release_undoes_press(j: Joypad, button: JoypadButton)
    requires
        j.consistent(),
        (if button.is_action() { j.button_states } else { j.dpad_states }) & button.mask() != 0,
    ensures
        j.pressed(button).released(button) == j,
{
    let p = j.pressed(button);
    if button.is_action() {
        lemma_press_then_release(j.button_states, button);
    } else {
        lemma_press_then_release(j.dpad_states, button);
    }
    lemma_nibble_ops(j.button_states);
    lemma_nibble_ops(j.dpad_states);
    let d = j.data;
    let pb = p.button_states;
    let pd = p.dpad_states;
    assert(pb < 16 && pd < 16 ==> joyp_value(d & 0x30, pb, pd) & 0x30 == d & 0x30) by (bit_vector);
}

/// With only the action group selected, a pressed action button reads 0 and a released one 1.
pub proof fn lemma_selected_button_reads_state(buttons: u8, dpad: u8, button: JoypadButton)
    requires
        button.is_action(),
        buttons < 16,
    ensures
        (joyp_value(0x10, buttons, dpad) & button.mask() == 0) == (buttons & button.mask() == 0),
{
    let m = button.mask();
    assert((m == 1 || m == 2 || m == 4 || m == 8) && buttons < 16 ==> (joyp_value(0x10u8, buttons, dpad) & m == 0)
        == (buttons & m == 0)) by (bit_vector);
}

} // verus!
