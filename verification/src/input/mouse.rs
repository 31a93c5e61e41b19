//! Types related to the state of the mouse.

use vstd::prelude::*;

use super::state::{initial_table, updated_table, ButtonState};

verus! {

/// The cursor position and state of the mouse buttons.
pub struct MouseState {
    /// The state of every supported mouse button, keyed by button code.
    pub buttons: ButtonState,
    /// *X* coordinate of the mouse cursor.
    pub x: i32,
    /// *Y* coordinate of the mouse cursor.
    pub y: i32,
}

impl MouseState {
    /// Create an initial state from the raw mouse-button pairs and cursor
    /// coordinates of the first snapshot. Called internally by the engine.
    pub fn new(buttons: &Vec<(u64, bool)>, x: i32, y: i32) -> (m: MouseState)
        ensures
            m.buttons@ == initial_table(buttons@),
            m.x == x,
            m.y == y,
    {
        MouseState { buttons: ButtonState::new(buttons), x, y }
    }

    /// Update the existing state from the current raw snapshot. This is
    /// called internally by the engine on every frame.
    pub fn update(&mut self, buttons: &Vec<(u64, bool)>, x: i32, y: i32)
        ensures
            final(self).buttons@ == updated_table(old(self).buttons@, buttons@),
            final(self).x == x,
            final(self).y == y,
    {
        self.buttons.update(buttons);
        self.x = x;
        self.y = y;
    }
}

} // verus!
