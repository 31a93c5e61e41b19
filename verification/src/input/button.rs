//! Contains the `Button` type, which stores the state (pressed, held, released)
//! of a single button or key.

use vstd::prelude::*;

verus! {

/// Represents the state of a button, such as a keyboard key or mouse button.
///
/// Invariant of every reachable value: `pressed` and `released` are never both
/// true, `pressed` implies `held`, and `released` implies `!held`.
#[derive(Clone, Copy, Debug, Default, PartialEq, Eq, Structural)]
pub struct Button {
    /// Was the key pressed on this frame?
    pub pressed: bool,
    /// Was the key released on this frame?
    pub released: bool,
    /// Is the key held down?
    pub held: bool,
}

/// The button a freshly observed raw state produces: `held` and `pressed`
/// reflect the raw state, `released` starts out false.
pub open spec fn spec_new_button(state: bool) -> Button {
    Button { pressed: state, released: false, held: state }
}

/// The edge-detection step: given the previous button and the new raw state,
/// `pressed` is true exactly on a false-to-true transition of the raw value,
/// `released` exactly on a true-to-false transition, and `held` equals the
/// raw value.
pub open spec fn spec_update_button(prev: Button, state: bool) -> Button {
    Button {
        pressed: state && !prev.held,
        released: !state && prev.held,
        held: state,
    }
}

/// The button obtained by creating a button from the first raw value of
/// `raws` and feeding it the remaining values in order, one per frame.
/// Creation from a raw value equals an update of an all-false button with
/// that value, so the fold starts from the all-false button.
pub open spec fn button_after(raws: Seq<bool>) -> Button
    decreases raws.len(),
{
    if raws.len() == 0 {
        Button { pressed: false, released: false, held: false }
    } else {
        spec_update_button(button_after(raws.drop_last()), raws.last())
    }
}

impl Button {
    /// Create a new Button struct from an initial state.
    pub fn new(state: bool) -> (b: Button)
        ensures
            b == spec_new_button(state),
    {
        Button { pressed: state, released: false, held: state }
    }

    /// Change the state based on if the key is currently held.
    /// This is called internally by the engine every frame.
    pub fn update(&mut self, state: bool)
        ensures
            *final(self) == spec_update_button(*old(self), state),
    {
        self.pressed = state && !self.held;
        self.released = !state && self.held;
        self.held = state;
    }
}

/// Creation from a raw value equals one edge-detection step applied to the
/// all-false button, so [`button_after`] folds every frame the same way,
/// the creation frame included.
pub proof fn lemma_new_is_first_update(state: bool)
    ensures
        spec_new_button(state) == spec_update_button(
            Button { pressed: false, released: false, held: false },
            state,
        ),
{
}

/// Edge-detection law: across any sequence of raw values fed to one button,
/// frame by frame, `held` always equals the current raw value, `pressed` is
/// true exactly on the frames where the raw value goes from false (or from
/// the button not existing yet) to true, and `released` exactly on the frames
/// where it goes from true to false.
pub proof fn lemma_edge_detection(raws: Seq<bool>, i: int)
    requires
        0 <= i < raws.len(),
    ensures
        ({
            let b = button_after(raws.take(i + 1));
            let prev = if i == 0 { false } else { raws[i - 1] };
            &&& b.held == raws[i]
            &&& b.pressed == (raws[i] && !prev)
            &&& b.released == (!raws[i] && prev)
        }),
{
    let s = raws.take(i + 1);
    assert(s.drop_last() =~= raws.take(i));
    assert(s.last() == raws[i]);
    assert(button_after(s) == spec_update_button(button_after(raws.take(i)), raws[i]));
    if i == 0 {
        assert(raws.take(0).len() == 0);
        assert(button_after(raws.take(0)).held == false);
    } else {
        let t = raws.take(i);
        assert(t.last() == raws[i - 1]);
        assert(button_after(t) == spec_update_button(button_after(t.drop_last()), t.last()));
        assert(button_after(t).held == raws[i - 1]);
    }
}

/// Idempotence law: feeding the same raw value twice in a row leaves
/// `pressed` and `released` false and `held` unchanged from the first feed,
/// and the resulting button is a fixed point of further identical feeds, so
/// the same holds from the second feed onward however often it is repeated.
pub proof fn lemma_update_idempotent(b: Button, state: bool)
    ensures
        spec_update_button(spec_update_button(b, state), state) == (Button {
            pressed: false,
            released: false,
            held: state,
        }),
        spec_update_button(spec_update_button(b, state), state).held == spec_update_button(
            b,
            state,
        ).held,
        spec_update_button(
            Button { pressed: false, released: false, held: state },
            state,
        ) == (Button { pressed: false, released: false, held: state }),
{
}

} // verus!
