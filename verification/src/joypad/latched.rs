//! A joypad whose input is latched: an input event is kept pending and only shows up in
//! the register at the next write that selects its row.
use crate::bus::{irq_bit, InterruptRegister};
use crate::utils::bit_at;
use vstd::prelude::*;

verus! {

/// Represents all possible input events that the emulator can receive.
/// This will be sent from the frontend and is used to update `Joypad`.
#[derive(Copy, Clone, PartialEq, Eq, Structural, Debug)]
pub struct JoypadInputEvent {
    pub left: bool,
    pub right: bool,
    pub up: bool,
    pub down: bool,
    pub a: bool,
    pub b: bool,
    pub start: bool,
    pub select: bool,
}

impl Default for JoypadInputEvent {
    fn default() -> (r: Self)
        ensures
            r == (JoypadInputEvent {
                left: false,
                right: false,
                up: false,
                down: false,
                a: false,
                b: false,
                start: false,
                select: false,
            }),
    {
        JoypadInputEvent {
            left: false,
            right: false,
            up: false,
            down: false,
            a: false,
            b: false,
            start: false,
            select: false,
        }
    }
}

impl JoypadInputEvent {
    /// Returns true if any button is pressed.
    pub fn is_pressed(self) -> (r: bool)
        ensures
            r == (self.left || self.right || self.up || self.down || self.a || self.b
                || self.start || self.select),
    {
        self.left || self.right || self.up || self.down || self.a || self.b || self.start
            || self.select
    }

    /// Resets the state of the D-Pad buttons.
    pub fn reset_dpad(&mut self)
        ensures
            *final(self) == (JoypadInputEvent {
                left: false,
                right: false,
                up: false,
                down: false,
                ..*old(self)
            }),
    {
        self.left = false;
        self.right = false;
        self.up = false;
        self.down = false;
    }

    /// Resets the state of the Action buttons.
    pub fn reset_action(&mut self)
        ensures
            *final(self) == (JoypadInputEvent {
                a: false,
                b: false,
                start: false,
                select: false,
                ..*old(self)
            }),
    {
        self.a = false;
        self.b = false;
        self.start = false;
        self.select = false;
    }
}

/// The row of buttons the program selected last.
#[derive(Copy, Clone, PartialEq, Eq, Structural, Debug)]
pub enum SelectedButtons {
    Initial,
    DPad,
    Action,
    Neither,
}

/// Represents Joypad at register 0xFF00, with the pressed state of the four input lines
/// as of the last write that selected a row.
#[derive(Copy, Clone, PartialEq, Eq, Structural, Debug)]
pub struct Joypad {
    pub a_right: bool,  // bit 0, A or Right
    pub b_left: bool,  // bit 1, B or Left
    pub select_up: bool,  // bit 2, Select or Up
    pub start_down: bool,  // bit 3, Start or Down
    pub selection: SelectedButtons,  // bit 4-5, D-Pad keys or Action keys respectively
    pub pending_event: JoypadInputEvent,  // pending input events that need handling
}

impl Default for Joypad {
    fn default() -> (r: Self)
        ensures
            r == (Joypad {
                a_right: false,
                b_left: false,
                select_up: false,
                start_down: false,
                selection: SelectedButtons::Initial,
                pending_event: JoypadInputEvent {
                    left: false,
                    right: false,
                    up: false,
                    down: false,
                    a: false,
                    b: false,
                    start: false,
                    select: false,
                },
            }),
    {
        Joypad {
            a_right: false,
            b_left: false,
            select_up: false,
            start_down: false,
            selection: SelectedButtons::Initial,
            pending_event: JoypadInputEvent::default(),
        }
    }
}

impl Joypad {
    /// The register value: bits 6-7 read 1, a pressed line reads 0, and bits 4-5 show the
    /// selection (0 selects).
    pub open spec fn register(self) -> u8 {
        (0b1100_0000 + (if self.a_right { 0 } else { 1int }) + (if self.b_left { 0 } else { 2int })
            + (if self.select_up { 0 } else { 4int }) + (if self.start_down { 0 } else { 8int })
            + match self.selection {
            SelectedButtons::DPad => 0b10_0000int,
            SelectedButtons::Action => 0b01_0000int,
            SelectedButtons::Neither => 0b11_0000int,
            SelectedButtons::Initial => 0int,
        }) as u8
    }

    /// The joypad after `value` has been written: the lines are cleared, and a selected row
    /// takes over its pending buttons, which are consumed.
    pub open spec fn written(self, value: u8) -> Self {
        let cleared = Joypad { a_right: false, b_left: false, select_up: false, start_down: false, ..self };
        let e = self.pending_event;
        let dpad = value & 0b0001_0000 != 0;
        let action = value & 0b0010_0000 != 0;
        if !dpad && action {
            Joypad {
                selection: SelectedButtons::DPad,
                b_left: e.left,
                a_right: e.right,
                start_down: e.down,
                select_up: e.up,
                pending_event: JoypadInputEvent { left: false, right: false, up: false, down: false, ..e },
                ..cleared
            }
        } else if dpad && !action {
            Joypad {
                selection: SelectedButtons::Action,
                a_right: e.a,
                b_left: e.b,
                start_down: e.start,
                select_up: e.select,
                pending_event: JoypadInputEvent { a: false, b: false, start: false, select: false, ..e },
                ..cleared
            }
        } else if dpad && action {
            Joypad { selection: SelectedButtons::Neither, ..cleared }
        } else {
            cleared
        }
    }

    /// Handles the given `JoypadInput` and sets the corresponding button state on the next write.
    pub fn handle_input(&mut self, event: JoypadInputEvent)
        ensures
            *final(self) == (Joypad { pending_event: event, ..*old(self) }),
    {
        self.pending_event = event;
    }

    /// Reads the Joypad register and returns the current state of the buttons.
    pub fn read(&self) -> (r: u8)
        ensures
            r == self.register(),
    {
        let mut value: u8 = 0b1100_0000;  // Undocumented bits should be 1
        if !self.a_right {
            value = value + 1;
        }
        if !self.b_left {
            value = value + 2;
        }
        if !self.select_up {
            value = value + 4;
        }
        if !self.start_down {
            value = value + 8;
        }
        match self.selection {
            SelectedButtons::DPad => value + 0b10_0000,
            SelectedButtons::Action => value + 0b01_0000,
            SelectedButtons::Neither => value + 0b11_0000,
            SelectedButtons::Initial => value,
        }
    }

    /// Writes the given value to the Joypad register, handles the pending Joypad input and
    /// requests an interrupt if a button of the selected row is pressed.
    pub fn write(&mut self, value: u8, int_reg: &mut InterruptRegister)
        ensures
            *final(self) == old(self).written(value),
            final(int_reg)@ == if (value & 0b0001_0000 != 0) != (value & 0b0010_0000 != 0) && (
            final(self).a_right || final(self).b_left || final(self).start_down
                || final(self).select_up) {
                old(int_reg)@ | irq_bit(4)
            } else {
                old(int_reg)@
            },
    {
        self.reset();
        let dpad = bit_at(value, 4);
        let action = bit_at(value, 5);
        proof {
            assert(crate::utils::bit_spec(value, 4) == (value & 0b0001_0000 != 0)
                && crate::utils::bit_spec(value, 5) == (value & 0b0010_0000 != 0)) by {
                crate::utils::lemma_bits_4_5(value);
            }
        }
        // In the joypad register the bit values are inverted,
        // 0 means selected and 1 means not selected.
        if !dpad && action {
            // D-Pad selection
            self.selection = SelectedButtons::DPad;
            self.b_left = self.pending_event.left;
            self.a_right = self.pending_event.right;
            self.start_down = self.pending_event.down;
            self.select_up = self.pending_event.up;
            self.pending_event.reset_dpad();
        } else if dpad && !action {
            // Action selection
            self.selection = SelectedButtons::Action;
            self.a_right = self.pending_event.a;
            self.b_left = self.pending_event.b;
            self.start_down = self.pending_event.start;
            self.select_up = self.pending_event.select;
            self.pending_event.reset_action();
        } else if dpad && action {
            // No selection
            self.selection = SelectedButtons::Neither;
            return ;
        } else {
            // Initial state
            return ;
        }
        if self.a_right || self.b_left || self.start_down || self.select_up {
            int_reg.insert(InterruptRegister::joypad());
        }
    }

    /// Resets the joypad state of the lower nibble.
    fn reset(&mut self)
        ensures
            *final(self) == (Joypad {
                a_right: false,
                b_left: false,
                select_up: false,
                start_down: false,
                ..*old(self)
            }),
    {
        self.a_right = false;
        self.b_left = false;
        self.select_up = false;
        self.start_down = false;
    }
}

} // verus!
