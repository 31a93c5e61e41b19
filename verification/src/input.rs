//! Data structures for inspecting user input.

pub mod button;
pub mod mouse;
pub mod state;

pub use button::Button;
pub use mouse::MouseState;
pub use state::ButtonState;
pub use state::LookupError;

use vstd::prelude::*;

verus! {

use crate::input::state::{initial_table, updated_table};

/// One unprocessed snapshot of every input source, as the windowing
/// collaborator reports it: the raw boolean activity of each keyboard
/// scancode and mouse-button code, and the cursor position.
pub struct RawInput {
    /// `(scancode, currently down)` for each reported keyboard key.
    pub keys: Vec<(u64, bool)>,
    /// `(button code, currently down)` for each reported mouse button.
    pub mouse_buttons: Vec<(u64, bool)>,
    /// *X* coordinate of the mouse cursor.
    pub mouse_x: i32,
    /// *Y* coordinate of the mouse cursor.
    pub mouse_y: i32,
}

/// The state of all supported input devices.
pub struct InputState {
    /// State of every observed key on the keyboard, keyed by scancode.
    pub keyboard: ButtonState,
    /// State of every observed mouse button, and the cursor coordinates.
    pub mouse: MouseState,
}

/// Holds when `state` is the input state built from the first raw snapshot
/// `raw`: one fresh button per reported key and mouse button, and the
/// reported cursor position.
pub open spec fn input_initialized(raw: RawInput, state: InputState) -> bool {
    &&& state.keyboard@ == initial_table(raw.keys@)
    &&& state.mouse.buttons@ == initial_table(raw.mouse_buttons@)
    &&& state.mouse.x == raw.mouse_x
    &&& state.mouse.y == raw.mouse_y
}

/// Holds when `after` is `before` refreshed from the raw snapshot `raw`:
/// every reported key and mouse button stepped through edge detection (or
/// freshly inserted), unmentioned ones unchanged, and the cursor moved to
/// the reported position.
pub open spec fn input_refreshed(before: InputState, raw: RawInput, after: InputState) -> bool {
    &&& after.keyboard@ == updated_table(before.keyboard@, raw.keys@)
    &&& after.mouse.buttons@ == updated_table(before.mouse.buttons@, raw.mouse_buttons@)
    &&& after.mouse.x == raw.mouse_x
    &&& after.mouse.y == raw.mouse_y
}

impl InputState {
    /// Create an initial state from the first raw snapshot.
    pub fn new(raw: &RawInput) -> (s: InputState)
        ensures
            input_initialized(*raw, s),
    {
        InputState {
            keyboard: ButtonState::new(&raw.keys),
            mouse: MouseState::new(&raw.mouse_buttons, raw.mouse_x, raw.mouse_y),
        }
    }

    /// Refresh the state from a fresh raw snapshot, re-evaluating the
    /// press/release edges of every reported key and button.
    pub fn update(&mut self, raw: &RawInput)
        ensures
            input_refreshed(*old(self), *raw, *final(self)),
    {
        self.keyboard.update(&raw.keys);
        self.mouse.update(&raw.mouse_buttons, raw.mouse_x, raw.mouse_y);
    }
}

} // verus!
