use vstd::prelude::*;

verus! {

/// The eight buttons, true while held.
#[derive(Debug, PartialEq, Eq, Clone, Copy, Structural)]
pub struct InputState {
    pub is_up_pressed: bool,
    pub is_down_pressed: bool,
    pub is_left_pressed: bool,
    pub is_right_pressed: bool,
    pub is_a_pressed: bool,
    pub is_b_pressed: bool,
    pub is_start_pressed: bool,
    pub is_select_pressed: bool,
}

/// The JOYP register (FF00): which button group is selected, and the buttons held.
pub struct InputMemory {
    pub joypad_state: InputState,
    pub is_reading_action_buttons: bool,
    pub is_reading_direction_buttons: bool,
}

/// Active-low bit: 0 while the button is held.
pub open spec fn released(b: bool) -> int {
    if b { 0 } else { 1 }
}

/// The low nibble of the action group: start, select, B, A from bit 3 down.
pub open spec fn action_nibble(s: InputState) -> int {
    8 * released(s.is_start_pressed) + 4 * released(s.is_select_pressed) + 2 * released(s.is_b_pressed)
        + released(s.is_a_pressed)
}

/// The low nibble of the direction group: down, up, left, right from bit 3 down.
pub open spec fn direction_nibble(s: InputState) -> int {
    8 * released(s.is_down_pressed) + 4 * released(s.is_up_pressed) + 2 * released(s.is_left_pressed)
        + released(s.is_right_pressed)
}

pub open spec fn no_button() -> InputState {
    InputState {
        is_up_pressed: false,
        is_down_pressed: false,
        is_left_pressed: false,
        is_right_pressed: false,
        is_a_pressed: false,
        is_b_pressed: false,
        is_start_pressed: false,
        is_select_pressed: false,
    }
}

fn released_bit(b: bool) -> (r: u8)
    ensures
        r as int == released(b),
{
    if b { 0 } else { 1 }
}

impl InputMemory {
    /// JOYP as read: bits 7-6 set, bits 5-4 the select lines (0 = selected),
    /// bits 3-0 the selected group when exactly one is selected, else 0xF.
    pub open spec fn read_spec(&self) -> u8 {
        let select = 0xC0 + 0x20 * released(self.is_reading_action_buttons) + 0x10 * released(
            self.is_reading_direction_buttons,
        );
        let low = if self.is_reading_action_buttons && !self.is_reading_direction_buttons {
            action_nibble(self.joypad_state)
        } else if self.is_reading_direction_buttons && !self.is_reading_action_buttons {
            direction_nibble(self.joypad_state)
        } else {
            0xF
        };
        (select + low) as u8
    }

    pub fn new() -> (r: InputMemory)
        ensures
            r.joypad_state == no_button(),
            !r.is_reading_action_buttons && !r.is_reading_direction_buttons,
    {
        InputMemory {
            joypad_state: InputState {
                is_up_pressed: false,
                is_down_pressed: false,
                is_left_pressed: false,
                is_right_pressed: false,
                is_a_pressed: false,
                is_b_pressed: false,
                is_start_pressed: false,
                is_select_pressed: false,
            },
            is_reading_action_buttons: false,
            is_reading_direction_buttons: false,
        }
    }

    /// Writes the select lines: bit 5 low selects the action group, bit 4 low the directions.
    pub fn write(&mut self, data: u8)
        ensures
            final(self).is_reading_action_buttons == ((data / 32) % 2 == 0),
            final(self).is_reading_direction_buttons == ((data / 16) % 2 == 0),
            final(self).joypad_state == old(self).joypad_state,
    {
        self.is_reading_action_buttons = (data / 32) % 2 == 0;
        self.is_reading_direction_buttons = (data / 16) % 2 == 0;
    }

    pub fn read(&self) -> (r: u8)
        ensures
            r == self.read_spec(),
    {
        let select: u8 = 0xC0 + 0x20 * released_bit(self.is_reading_action_buttons) + 0x10 * released_bit(
            self.is_reading_direction_buttons,
        );
        let s = self.joypad_state;
        let low: u8 = if self.is_reading_action_buttons && !self.is_reading_direction_buttons {
            8 * released_bit(s.is_start_pressed) + 4 * released_bit(s.is_select_pressed) + 2 * released_bit(
                s.is_b_pressed,
            ) + released_bit(s.is_a_pressed)
        } else if self.is_reading_direction_buttons && !self.is_reading_action_buttons {
            8 * released_bit(s.is_down_pressed) + 4 * released_bit(s.is_up_pressed) + 2 * released_bit(
                s.is_left_pressed,
            ) + released_bit(s.is_right_pressed)
        } else {
            0xF
        };
        select + low
    }

    /// Takes the new button snapshot; returns whether a bit of the low nibble fell
    /// from 1 to 0, which requests the joypad interrupt.
    pub fn update(&mut self, input_state: &InputState) -> (falling_edge: bool)
        ensures
            final(self).joypad_state == *input_state,
            final(self).is_reading_action_buttons == old(self).is_reading_action_buttons,
            final(self).is_reading_direction_buttons == old(self).is_reading_direction_buttons,
            falling_edge == (falls(old(self).read_spec(), final(self).read_spec(), 1) || falls(
                old(self).read_spec(),
                final(self).read_spec(),
                2,
            ) || falls(old(self).read_spec(), final(self).read_spec(), 4) || falls(
                old(self).read_spec(),
                final(self).read_spec(),
                8,
            )),
    {
        let before = self.read();
        self.joypad_state = *input_state;
        let after = self.read();
        let edge = ((before / 1) % 2 == 1 && (after / 1) % 2 == 0) || ((before / 2) % 2 == 1 && (after / 2) % 2
            == 0) || ((before / 4) % 2 == 1 && (after / 4) % 2 == 0) || ((before / 8) % 2 == 1 && (after / 8) % 2
            == 0);
        edge
    }
}

/// Bit `w` (given as its weight) is 1 in `before` and 0 in `after`.
pub open spec fn falls(before: u8, after: u8, w: int) -> bool {
    (before as int / w) % 2 == 1 && (after as int / w) % 2 == 0
}

} // verus!
