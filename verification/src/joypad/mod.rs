//! The joypad register JOYP at 0xFF00.
pub mod latched;

use crate::bus::{irq_bit, InterruptRegister};
use vstd::prelude::*;

verus! {

/// Raw state of the JOYP register at 0xFF00, see https://gbdev.io/pandocs/Joypad_Input.html.
///
/// Only bits 0-5 are used, also in the joypad register the bit values are inverted:
/// 0 means selected (or pressed) and 1 means not selected.
#[derive(Copy, Clone, PartialEq, Eq, Structural, Debug)]
pub struct JoypadRegister {
    pub bits: u8,
}

/// Represents all possible input states that the emulator can receive.
/// This will be sent from the frontend and is used to update `Joypad`.
#[derive(Copy, Clone, PartialEq, Eq, Structural, Debug)]
pub struct JoypadInputState {
    pub left: bool,
    pub right: bool,
    pub up: bool,
    pub down: bool,
    pub a: bool,
    pub b: bool,
    pub start: bool,
    pub select: bool,
}

impl Default for JoypadInputState {
    fn default() -> (r: Self)
        ensures
            r == (JoypadInputState {
                left: false,
                right: false,
                up: false,
                down: false,
                a: false,
                b: false,
                start: false,
                select: false,
            }),
    {
        JoypadInputState {
            left: false,
            right: false,
            up: false,
            down: false,
            a: false,
            b: false,
            start: false,
            select: false,
        }
    }
}

/// The lowest input lines (bits 0-3) of JOYP.
pub const INPUT_LINES: u8 = 0b0000_1111;

/// Bit 4 of JOYP: 0 selects the direction keys.
pub const SELECT_DPAD: u8 = 0b0001_0000;

/// Bit 5 of JOYP: 0 selects the action buttons.
pub const SELECT_BUTTONS: u8 = 0b0010_0000;

/// The unused bits 6-7, which read as 1.
pub const UNUSED: u8 = 0b1100_0000;

/// Whether the input line `line` (0 = A/Right, 1 = B/Left, 2 = Select/Up, 3 = Start/Down)
/// is pulled low by a pressed button of a selected row.
pub open spec fn line_low(reg: u8, input: JoypadInputState, line: int) -> bool {
    let dpad = reg & SELECT_DPAD == 0;
    let buttons = reg & SELECT_BUTTONS == 0;
    if line == 0 {
        buttons && input.a || dpad && input.right
    } else if line == 1 {
        buttons && input.b || dpad && input.left
    } else if line == 2 {
        buttons && input.select || dpad && input.up
    } else {
        buttons && input.start || dpad && input.down
    }
}

/// The register with its input lines set from `input` and the selected rows: a line
/// reads 0 when a pressed button of a selected row is wired to it, else 1.
pub open spec fn with_lines(reg: u8, input: JoypadInputState) -> u8 {
    (reg & 0b1111_0000) | (if line_low(reg, input, 0) { 0u8 } else { 1u8 }) | (if line_low(
        reg,
        input,
        1,
    ) {
        0u8
    } else {
        2u8
    }) | (if line_low(reg, input, 2) { 0u8 } else { 4u8 }) | (if line_low(reg, input, 3) {
        0u8
    } else {
        8u8
    })
}

/// Whether an input line went from high to low between `previous` and `current`.
pub open spec fn falling_edge(previous: u8, current: u8) -> bool {
    previous & !current & INPUT_LINES != 0
}

/// The interrupt flags after the joypad interrupt is requested on a falling edge.
pub open spec fn flags_after(flags: u8, previous: u8, current: u8) -> u8 {
    if falling_edge(previous, current) {
        flags | irq_bit(4)
    } else {
        flags
    }
}

/// The low nibble of the register shows exactly the pressed buttons of the selected rows
/// (0 = pressed), and updating the lines leaves the selection and unused bits alone.
pub proof fn lemma_lines_show_pressed(reg: u8, input: JoypadInputState)
    ensures
        (with_lines(reg, input) & 1 == 0) == line_low(reg, input, 0),
        (with_lines(reg, input) & 2 == 0) == line_low(reg, input, 1),
        (with_lines(reg, input) & 4 == 0) == line_low(reg, input, 2),
        (with_lines(reg, input) & 8 == 0) == line_low(reg, input, 3),
        with_lines(reg, input) & 0b1111_0000 == reg & 0b1111_0000,
{
    let l0 = line_low(reg, input, 0);
    let l1 = line_low(reg, input, 1);
    let l2 = line_low(reg, input, 2);
    let l3 = line_low(reg, input, 3);
    let v = with_lines(reg, input);
    assert(v == (reg & 0b1111_0000) | (if l0 { 0u8 } else { 1u8 }) | (if l1 { 0u8 } else { 2u8 }) | (
    if l2 { 0u8 } else { 4u8 }) | (if l3 { 0u8 } else { 8u8 }));
    assert((v & 1 == 0) == l0 && (v & 2 == 0) == l1 && (v & 4 == 0) == l2 && (v & 8 == 0) == l3 && v
        & 0b1111_0000 == reg & 0b1111_0000) by (bit_vector)
        requires
            v == (reg & 0b1111_0000) | (if l0 { 0u8 } else { 1u8 }) | (if l1 { 0u8 } else { 2u8 }) | (
            if l2 { 0u8 } else { 4u8 }) | (if l3 { 0u8 } else { 8u8 }),
    ;
}

/// Handing the same input again never requests the joypad interrupt: no line can fall
/// when nothing changed.
pub proof fn lemma_same_input_no_irq(reg: u8, input: JoypadInputState, flags: u8)
    requires
        reg == with_lines(reg, input),
    ensures
        flags_after(flags, reg, with_lines(reg, input)) == flags,
{
    assert(reg & !reg & INPUT_LINES == 0) by (bit_vector);
}

/// The unused bits 6-7 of JOYP always read 1: a register that starts with them set keeps
/// them through any update of its input lines, and through any write of its row-selection
/// bits followed by such an update.
pub proof fn lemma_unused_bits_stay_set(reg: u8, input: JoypadInputState, value: u8)
    requires
        reg & UNUSED == UNUSED,
    ensures
        with_lines(reg, input) & UNUSED == UNUSED,
        with_lines(
            (reg & !(SELECT_DPAD | SELECT_BUTTONS)) | (value & (SELECT_DPAD | SELECT_BUTTONS)),
            input,
        ) & UNUSED == UNUSED,
{
    let selected: u8 = (reg & !(SELECT_DPAD | SELECT_BUTTONS)) | (value & (SELECT_DPAD
        | SELECT_BUTTONS));
    lemma_lines_show_pressed(reg, input);
    lemma_lines_show_pressed(selected, input);
    let a = with_lines(reg, input);
    let b = with_lines(selected, input);
    assert(a & 0b1100_0000u8 == 0b1100_0000u8 && b & 0b1100_0000u8 == 0b1100_0000u8)
        by (bit_vector)
        requires
            reg & 0b1100_0000u8 == 0b1100_0000u8,
            selected == (reg & !(0b0001_0000u8 | 0b0010_0000u8)) | (value & (0b0001_0000u8
                | 0b0010_0000u8)),
            a & 0b1111_0000u8 == reg & 0b1111_0000u8,
            b & 0b1111_0000u8 == selected & 0b1111_0000u8,
    ;
}

impl JoypadRegister {
    /// Sets or clears the bits of `flag`.
    pub fn set(&mut self, flag: u8, value: bool)
        ensures
            final(self).bits == if value {
                old(self).bits | flag
            } else {
                old(self).bits & !flag
            },
    {
        if value {
            self.bits = self.bits | flag;
        } else {
            self.bits = self.bits & !flag;
        }
    }

    /// Updates register from the selected rows and the given `input`.
    pub fn update_from_input_event(&mut self, input: JoypadInputState)
        ensures
            final(self).bits == with_lines(old(self).bits, input),
    {
        let dpad_selected = self.is_dpad_selected();
        let buttons_selected = self.are_buttons_selected();
        let a_right = buttons_selected && input.a || dpad_selected && input.right;
        let b_left = buttons_selected && input.b || dpad_selected && input.left;
        let select_up = buttons_selected && input.select || dpad_selected && input.up;
        let start_down = buttons_selected && input.start || dpad_selected && input.down;
        self.bits = (self.bits & 0b1111_0000) | (if a_right { 0u8 } else { 1u8 }) | (if b_left {
            0u8
        } else {
            2u8
        }) | (if select_up { 0u8 } else { 4u8 }) | (if start_down { 0u8 } else { 8u8 });
    }

    /// Returns true if the DPad is currently selected.
    pub fn is_dpad_selected(self) -> (r: bool)
        ensures
            r == (self.bits & SELECT_DPAD == 0),
    {
        self.bits & SELECT_DPAD == 0
    }

    /// Returns true if the action buttons are currently selected.
    pub fn are_buttons_selected(self) -> (r: bool)
        ensures
            r == (self.bits & SELECT_BUTTONS == 0),
    {
        self.bits & SELECT_BUTTONS == 0
    }
}

impl Default for JoypadRegister {
    fn default() -> (r: Self)
        ensures
            r.bits == 0b1100_1111,
    {
        assert(UNUSED | INPUT_LINES == 0b1100_1111u8) by (bit_vector);
        JoypadRegister { bits: UNUSED | INPUT_LINES }
    }
}

/// Represents Joypad at register 0xFF00
/// The eight Game Boy action/direction buttons are arranged as a 2×4 matrix.
/// Select either action or direction buttons by writing to this register,
/// then read out the bits 0-3. The lower nibble is Read-only.
/// Note that, rather unconventionally for the Game Boy,
/// a button being pressed is seen as the corresponding bit being 0, not 1.
#[derive(Copy, Clone, PartialEq, Eq, Structural, Debug)]
pub struct Joypad {
    pub input: JoypadInputState,
    pub register: JoypadRegister,
}

/// One call on the joypad: a write of the JOYP register, or a change of the pressed
/// buttons handed in by the frontend.
#[derive(Copy, Clone, PartialEq, Eq, Structural, Debug)]
pub enum JoypadEvent {
    Write(u8),
    Input(JoypadInputState),
}

impl Joypad {
    /// The joypad as `default` makes it: nothing pressed, no row selected.
    pub open spec fn default_spec() -> Joypad {
        Joypad {
            input: JoypadInputState {
                left: false,
                right: false,
                up: false,
                down: false,
                a: false,
                b: false,
                start: false,
                select: false,
            },
            register: JoypadRegister { bits: 0b1100_1111 },
        }
    }

    /// The joypad after `value` has been written to JOYP: the row selection (bits 4 and
    /// 5) is taken from `value` and the input lines follow the selected rows.
    pub open spec fn written(self, value: u8) -> Joypad {
        Joypad {
            register: JoypadRegister {
                bits: with_lines(
                    (self.register.bits & !(SELECT_DPAD | SELECT_BUTTONS)) | (value & (
                    SELECT_DPAD | SELECT_BUTTONS)),
                    self.input,
                ),
            },
            ..self
        }
    }

    /// The joypad after the pressed buttons became `input`.
    pub open spec fn input_handled(self, input: JoypadInputState) -> Joypad {
        Joypad { input, register: JoypadRegister { bits: with_lines(self.register.bits, input) } }
    }

    /// The joypad after the calls `events`, in order.
    pub open spec fn after_events(self, events: Seq<JoypadEvent>) -> Joypad
        decreases events.len(),
    {
        if events.len() == 0 {
            self
        } else {
            let before = self.after_events(events.drop_last());
            match events.last() {
                JoypadEvent::Write(value) => before.written(value),
                JoypadEvent::Input(input) => before.input_handled(input),
            }
        }
    }
}

/// The unused bits 6-7 of JOYP always read 1: the default joypad reads 0xCF, and after
/// any sequence of writes and input changes, starting from the default joypad or from any
/// joypad whose unused bits are set, a read still shows both bits set.
pub proof fn lemma_joypad_unused_bits_read_one(start: Joypad, events: Seq<JoypadEvent>)
    requires
        start.register.bits & UNUSED == UNUSED,
    ensures
        Joypad::default_spec().register.bits == 0xCF,
        Joypad::default_spec().after_events(events).register.bits & UNUSED == UNUSED,
        start.after_events(events).register.bits & UNUSED == UNUSED,
{
    assert(0b1100_1111u8 & 0b1100_0000u8 == 0b1100_0000u8) by (bit_vector);
    lemma_unused_bits_kept(Joypad::default_spec(), events);
    lemma_unused_bits_kept(start, events);
}

/// Bits 6-7 of JOYP stay set through any sequence of calls.
proof fn lemma_unused_bits_kept(start: Joypad, events: Seq<JoypadEvent>)
    requires
        start.register.bits & UNUSED == UNUSED,
    ensures
        start.after_events(events).register.bits & UNUSED == UNUSED,
    decreases events.len(),
{
    if events.len() > 0 {
        lemma_unused_bits_kept(start, events.drop_last());
        let before = start.after_events(events.drop_last());
        match events.last() {
            JoypadEvent::Write(value) => lemma_unused_bits_stay_set(before.register.bits, before.input, value),
            JoypadEvent::Input(input) => lemma_unused_bits_stay_set(before.register.bits, input, 0),
        }
    }
}

impl Default for Joypad {
    fn default() -> (r: Self)
        ensures
            r.input == (JoypadInputState {
                left: false,
                right: false,
                up: false,
                down: false,
                a: false,
                b: false,
                start: false,
                select: false,
            }),
            r.register.bits == 0b1100_1111,
            r.register.bits & UNUSED == UNUSED,
            r == Joypad::default_spec(),
    {
        assert(0b1100_1111u8 & 0b1100_0000u8 == 0b1100_0000u8) by (bit_vector);
        Joypad { input: JoypadInputState::default(), register: JoypadRegister::default() }
    }
}

impl Joypad {
    /// Uses the given `input` to update the `Joypad` including its register; a line that
    /// goes low requests the joypad interrupt.
    pub fn handle_input(&mut self, input: JoypadInputState, int_reg: &mut InterruptRegister)
        ensures
            final(self).input == input,
            final(self).register.bits == with_lines(old(self).register.bits, input),
            final(int_reg)@ == flags_after(
                old(int_reg)@,
                old(self).register.bits,
                final(self).register.bits,
            ),
            old(self).register.bits & UNUSED == UNUSED ==> final(self).register.bits & UNUSED
                == UNUSED,
            *final(self) == old(self).input_handled(input),
    {
        proof {
            if self.register.bits & UNUSED == UNUSED {
                lemma_unused_bits_stay_set(self.register.bits, input, 0);
            }
        }
        let previous = self.register;
        self.register.update_from_input_event(input);
        self.input = input;
        Self::falling_edge_irq(previous, self.register, int_reg);
    }

    /// Reads the Joypad register and returns the current state of the selected buttons.
    pub fn read(&self) -> (r: u8)
        ensures
            r == self.register.bits,
    {
        self.register.bits
    }

    /// Writes the JOYP row-selection bits (4 and 5) and triggers an IRQ if the change causes
    /// a high to low transition of an input line.
    pub fn write(&mut self, value: u8, int_reg: &mut InterruptRegister)
        ensures
            final(self).input == old(self).input,
            final(self).register.bits == with_lines(
                (old(self).register.bits & !(SELECT_DPAD | SELECT_BUTTONS)) | (value & (SELECT_DPAD
                    | SELECT_BUTTONS)),
                old(self).input,
            ),
            final(int_reg)@ == flags_after(
                old(int_reg)@,
                old(self).register.bits,
                final(self).register.bits,
            ),
            old(self).register.bits & UNUSED == UNUSED ==> final(self).register.bits & UNUSED
                == UNUSED,
            *final(self) == old(self).written(value),
    {
        proof {
            if self.register.bits & UNUSED == UNUSED {
                lemma_unused_bits_stay_set(self.register.bits, self.input, value);
            }
        }
        let previous = self.register;
        self.register.set(SELECT_DPAD, value & SELECT_DPAD != 0);
        self.register.set(SELECT_BUTTONS, value & SELECT_BUTTONS != 0);
        let ghost set_bits = self.register.bits;
        let ghost prev_bits = previous.bits;
        assert(set_bits == (prev_bits & !(SELECT_DPAD | SELECT_BUTTONS)) | (value & (SELECT_DPAD
            | SELECT_BUTTONS))) by (bit_vector)
            requires
                set_bits == (if value & 0b0010_0000u8 != 0 {
                    (if value & 0b0001_0000u8 != 0 {
                        prev_bits | 0b0001_0000u8
                    } else {
                        prev_bits & !0b0001_0000u8
                    }) | 0b0010_0000u8
                } else {
                    (if value & 0b0001_0000u8 != 0 {
                        prev_bits | 0b0001_0000u8
                    } else {
                        prev_bits & !0b0001_0000u8
                    }) & !0b0010_0000u8
                }),
        ;
        self.register.update_from_input_event(self.input);
        Self::falling_edge_irq(previous, self.register, int_reg);
    }

    /// Triggers an IRQ when any of the input lines change from high to low.
    fn falling_edge_irq(previous: JoypadRegister, current: JoypadRegister, int_reg: &mut InterruptRegister)
        ensures
            final(int_reg)@ == flags_after(old(int_reg)@, previous.bits, current.bits),
    {
        if previous.bits & !current.bits & INPUT_LINES != 0 {
            int_reg.insert(InterruptRegister::joypad());
        }
    }
}

} // verus!
