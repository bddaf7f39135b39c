//! The mouse buffer between the host's input callbacks and the GUI's input
//! model: callbacks overwrite it, each frame reads it once and clears the
//! wheel.

use vstd::prelude::*;
use crate::coord::{lemma_truncated_fits, truncate_single, truncated};

verus! {

/// A mouse button as the window host names it.
#[derive(Clone, Copy, Debug, PartialEq, Eq, Structural)]
pub enum MouseButton {
    Left,
    Right,
    Middle,
    /// Any further button, by the host's number for it.
    Other(u8),
}

/// The press flags `(left, right, middle)` with no button held.
pub open spec fn released() -> (bool, bool, bool) {
    (false, false, false)
}

/// The press flags `(left, right, middle)` that a button-down event for
/// `button` leaves behind: the flag of that button alone.
pub open spec fn pressed_flags(button: MouseButton) -> (bool, bool, bool) {
    (button == MouseButton::Left, button == MouseButton::Right, button == MouseButton::Middle)
}

/// The press flags for a button-down event.
pub fn pressed_by(button: MouseButton) -> (flags: (bool, bool, bool))
    ensures
        flags == pressed_flags(button),
{
    match button {
        MouseButton::Left => (true, false, false),
        MouseButton::Right => (false, true, false),
        MouseButton::Middle => (false, false, true),
        MouseButton::Other(_) => (false, false, false),
    }
}

/// What one frame feeds into the GUI's input model.
#[derive(Clone, Copy, Debug, PartialEq, Eq)]
pub struct MouseInput {
    /// Cursor position in whole pixels.
    pub pos: (i32, i32),
    /// Press state of the GUI's five button slots: left, right, middle and
    /// two that this shell never presses.
    pub down: [bool; 5],
    /// Wheel delta since the previous frame, as a single-precision bit
    /// pattern.
    pub wheel: u32,
}

/// The buffered mouse state.
#[derive(Clone, Copy, Debug, PartialEq, Eq)]
pub struct MouseState {
    /// Cursor position in whole pixels.
    pub pos: (i32, i32),
    /// Press flags `(left, right, middle)`.
    pub pressed: (bool, bool, bool),
    /// Wheel delta not yet handed to a frame, as a single-precision bit
    /// pattern; 0 is the number zero.
    pub wheel: u32,
}

impl Default for MouseState {
    /// The empty buffer.
    fn default() -> (state: MouseState)
        ensures
            state == MouseState::empty(),
    {
        MouseState { pos: (0, 0), pressed: (false, false, false), wheel: 0 }
    }
}

impl MouseState {
    /// The state after the cursor moved to the single-precision coordinates
    /// with bit patterns `x` and `y`.
    pub open spec fn moved(self, x: u32, y: u32) -> MouseState {
        MouseState { pos: (truncated(x) as i32, truncated(y) as i32), ..self }
    }

    /// The state after the press flags were overwritten.
    pub open spec fn with_pressed(self, pressed: (bool, bool, bool)) -> MouseState {
        MouseState { pressed, ..self }
    }

    /// What a frame that starts in this state feeds into the GUI.
    pub open spec fn input(self) -> MouseInput {
        MouseInput {
            pos: self.pos,
            down: [self.pressed.0, self.pressed.1, self.pressed.2, false, false],
            wheel: self.wheel,
        }
    }

    /// The state a frame leaves behind: the wheel delta is used up, the rest
    /// stays.
    pub open spec fn consumed(self) -> MouseState {
        MouseState { wheel: 0, ..self }
    }

    /// The empty buffer: the cursor at the origin, nothing pressed and no
    /// wheel delta.
    pub open spec fn empty() -> MouseState {
        MouseState { pos: (0, 0), pressed: released(), wheel: 0 }
    }

    /// Records a cursor position given as two single-precision bit patterns,
    /// truncated toward zero to whole pixels.
    pub fn update_pos(&mut self, x: u32, y: u32)
        ensures
            *final(self) == old(self).moved(x, y),
        no_unwind
    {
        self.pos = (truncate_single(x), truncate_single(y));
    }

    /// Overwrites the press flags `(left, right, middle)`.
    pub fn update_down(&mut self, pressed: (bool, bool, bool))
        ensures
            *final(self) == old(self).with_pressed(pressed),
        no_unwind
    {
        self.pressed = pressed;
    }

    /// Hands the buffered state to a frame and clears the wheel delta.
    pub fn take_input(&mut self) -> (input: MouseInput)
        ensures
            input == old(self).input(),
            *final(self) == old(self).consumed(),
        no_unwind
    {
        let input = MouseInput {
            pos: self.pos,
            down: [self.pressed.0, self.pressed.1, self.pressed.2, false, false],
            wheel: self.wheel,
        };
        self.wheel = 0;
        input
    }
}

/// A frame reports the cursor where the last position update put it: the
/// coordinates it was given, truncated toward zero.
pub proof fn lemma_frame_reports_truncated_position(state: MouseState, x: u32, y: u32)
    ensures
        state.moved(x, y).input().pos == (truncated(x) as i32, truncated(y) as i32),
        i32::MIN <= truncated(x) <= i32::MAX,
        i32::MIN <= truncated(y) <= i32::MAX,
{
    lemma_truncated_fits(x);
    lemma_truncated_fits(y);
}

/// After a button-down event and a button-up event, the next frame reports
/// every button slot released, whichever button went down.
pub proof fn lemma_release_clears_every_button(state: MouseState, button: MouseButton)
    ensures
        state.with_pressed(pressed_flags(button)).with_pressed(released()).input().down
            == [false, false, false, false, false],
{
}

/// A wheel delta reaches exactly one frame: whatever the delta was, the frame
/// after the one that took it reports zero.
pub proof fn lemma_wheel_is_consumed_once(state: MouseState)
    ensures
        state.consumed().input().wheel == 0,
        state.consumed().consumed() == state.consumed(),
{
}

} // verus!
