//! Contains the `Key` type, which stores the state (pressed, held, released)
//! of a single keyboard key, with the same edge-detection step as
//! [`Button`][crate::input::Button].

use vstd::prelude::*;

verus! {

/// Represents the state of a key.
#[derive(Clone, Copy, Debug, Default, PartialEq, Eq, Structural)]
pub struct Key {
    /// Was the key pressed on this frame?
    pub pressed: bool,
    /// Was the key released on this frame?
    pub released: bool,
    /// Is the key held down?
    pub held: bool,
}

impl Key {
    /// Create a new Key struct from an initial state.
    pub fn new(state: bool) -> (k: Key)
        ensures
            k == (Key { pressed: state, released: false, held: state }),
    {
        Key { pressed: state, released: false, held: state }
    }

    /// Change the state based on if the key is currently held.
    /// This is called internally by the engine every frame.
    pub fn update(&mut self, state: bool)
        ensures
            final(self).pressed == (state && !old(self).held),
            final(self).released == (!state && old(self).held),
            final(self).held == state,
    {
        self.pressed = state && !self.held;
        self.released = !state && self.held;
        self.held = state;
    }
}

} // verus!
