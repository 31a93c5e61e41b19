//! Types related to the state of various input devices.

use vstd::prelude::*;

use std::collections::HashMap;

use super::button::{spec_new_button, spec_update_button, Button};

verus! {

/// The error returned when the state of a button that was never observed is
/// queried. Querying a button before it has appeared in at least one raw
/// snapshot is a violation of the table's usage contract, not a runtime
/// condition to recover from.
#[derive(Clone, Copy, Debug, PartialEq, Eq, Structural)]
pub struct LookupError;

/// The state (pressed, held, released) of a collection of buttons.
///
/// The table maps an input-identity code — a keyboard scancode or a mouse
/// button code, both plain integers — to the [`Button`] tracking it. Every
/// code ever observed remains present for the table's lifetime: entries are
/// never evicted, only updated, or newly inserted on first observation.
pub struct ButtonState {
    buttons: HashMap<u64, Button>,
}

/// The table produced by initializing one fresh button per `(code, raw)`
/// pair, in order; on duplicate codes the later pair wins.
pub open spec fn initial_table(pairs: Seq<(u64, bool)>) -> Map<u64, Button>
    decreases pairs.len(),
{
    if pairs.len() == 0 {
        Map::empty()
    } else {
        initial_table(pairs.drop_last()).insert(
            pairs.last().0,
            spec_new_button(pairs.last().1),
        )
    }
}

/// The table produced by feeding the `(code, raw)` pairs to `table` in order:
/// a pair whose code is present updates that button's edges, a pair whose
/// code is absent inserts a fresh button. Codes not mentioned in `pairs` keep
/// their previous button unchanged.
pub open spec fn updated_table(table: Map<u64, Button>, pairs: Seq<(u64, bool)>) -> Map<
    u64,
    Button,
>
    decreases pairs.len(),
{
    if pairs.len() == 0 {
        table
    } else {
        let t = updated_table(table, pairs.drop_last());
        let code = pairs.last().0;
        let raw = pairs.last().1;
        t.insert(
            code,
            if t.contains_key(code) {
                spec_update_button(t[code], raw)
            } else {
                spec_new_button(raw)
            },
        )
    }
}

impl View for ButtonState {
    type V = Map<u64, Button>;

    closed spec fn view(&self) -> Map<u64, Button> {
        self.buttons@
    }
}

impl ButtonState {
    /// Create an initial state from the raw `(code, raw state)` pairs of the
    /// first snapshot.
    pub fn new(pairs: &Vec<(u64, bool)>) -> (s: ButtonState)
        ensures
            s@ == initial_table(pairs@),
    {
        let mut buttons: HashMap<u64, Button> = HashMap::new();
        let mut i: usize = 0;
        while i < pairs.len()
            invariant
                i <= pairs.len(),
                buttons@ == initial_table(pairs@.take(i as int)),
            decreases pairs.len() - i,
        {
            let (code, raw) = pairs[i];
            buttons.insert(code, Button::new(raw));
            assert(pairs@.take(i + 1).drop_last() =~= pairs@.take(i as int));
            assert(pairs@.take(i + 1).last() == pairs@[i as int]);
            i = i + 1;
        }
        assert(pairs@.take(pairs@.len() as int) =~= pairs@);
        ButtonState { buttons }
    }

    /// Update the previous state. This is called by the engine every frame to
    /// determine which buttons have been pressed / released. Buttons absent
    /// from `pairs` are left unchanged: absence means the source reported
    /// nothing new, not that the button was released.
    pub fn update(&mut self, pairs: &Vec<(u64, bool)>)
        ensures
            final(self)@ == updated_table(old(self)@, pairs@),
    {
        let mut i: usize = 0;
        while i < pairs.len()
            invariant
                i <= pairs.len(),
                self@ == updated_table(old(self)@, pairs@.take(i as int)),
            decreases pairs.len() - i,
        {
            let (code, raw) = pairs[i];
            let next = match self.buttons.get(&code) {
                Some(prev) => {
                    let mut b = *prev;
                    b.update(raw);
                    b
                },
                None => Button::new(raw),
            };
            self.buttons.insert(code, next);
            assert(pairs@.take(i + 1).drop_last() =~= pairs@.take(i as int));
            assert(pairs@.take(i + 1).last() == pairs@[i as int]);
            i = i + 1;
        }
        assert(pairs@.take(pairs@.len() as int) =~= pairs@);
    }

    /// Get the state of a specific button, or a [`LookupError`] if that
    /// button was never observed in any snapshot.
    pub fn get(&self, button: u64) -> (r: Result<Button, LookupError>)
        ensures
            match r {
                Ok(b) => self@.contains_key(button) && b == self@[button],
                Err(_) => !self@.contains_key(button),
            },
    {
        match self.buttons.get(&button) {
            Some(b) => Ok(*b),
            None => Err(LookupError),
        }
    }

    /// Returns if the specified button was pressed on this frame, or a
    /// [`LookupError`] if the button was never observed.
    pub fn pressed(&self, button: u64) -> (r: Result<bool, LookupError>)
        ensures
            match r {
                Ok(p) => self@.contains_key(button) && p == self@[button].pressed,
                Err(_) => !self@.contains_key(button),
            },
    {
        match self.get(button) {
            Ok(b) => Ok(b.pressed),
            Err(e) => Err(e),
        }
    }

    /// Returns if the specified button was released on this frame, or a
    /// [`LookupError`] if the button was never observed.
    pub fn released(&self, button: u64) -> (r: Result<bool, LookupError>)
        ensures
            match r {
                Ok(p) => self@.contains_key(button) && p == self@[button].released,
                Err(_) => !self@.contains_key(button),
            },
    {
        match self.get(button) {
            Ok(b) => Ok(b.released),
            Err(e) => Err(e),
        }
    }

    /// Returns if the specified button is held, or a [`LookupError`] if the
    /// button was never observed.
    pub fn held(&self, button: u64) -> (r: Result<bool, LookupError>)
        ensures
            match r {
                Ok(p) => self@.contains_key(button) && p == self@[button].held,
                Err(_) => !self@.contains_key(button),
            },
    {
        match self.get(button) {
            Ok(b) => Ok(b.held),
            Err(e) => Err(e),
        }
    }
}

/// Retention law: a code that an incoming snapshot does not mention keeps
/// its previous button unchanged through the update — absence means the
/// source reported nothing new, not a release — and its presence in the
/// table is unchanged too.
pub proof fn lemma_unmentioned_code_unchanged(
    table: Map<u64, Button>,
    pairs: Seq<(u64, bool)>,
    code: u64,
)
    requires
        forall|i: int| 0 <= i < pairs.len() ==> (#[trigger] pairs[i]).0 != code,
    ensures
        updated_table(table, pairs).contains_key(code) == table.contains_key(code),
        table.contains_key(code) ==> updated_table(table, pairs)[code] == table[code],
    decreases pairs.len(),
{
    if pairs.len() > 0 {
        assert(forall|i: int|
            0 <= i < pairs.len() - 1 ==> #[trigger] pairs.drop_last()[i] == pairs[i]);
        lemma_unmentioned_code_unchanged(table, pairs.drop_last(), code);
    }
}

/// Update law: a code mentioned exactly once in the snapshot, with raw value
/// `raw`, ends the update with its previous button stepped through edge
/// detection if it was present, and with a fresh button if it was not.
pub proof fn lemma_mentioned_code_updated(
    table: Map<u64, Button>,
    pairs: Seq<(u64, bool)>,
    i: int,
)
    requires
        0 <= i < pairs.len(),
        forall|j: int| 0 <= j < pairs.len() && j != i ==> (#[trigger] pairs[j]).0 != pairs[i].0,
    ensures
        updated_table(table, pairs).contains_key(pairs[i].0),
        updated_table(table, pairs)[pairs[i].0] == if table.contains_key(pairs[i].0) {
            spec_update_button(table[pairs[i].0], pairs[i].1)
        } else {
            spec_new_button(pairs[i].1)
        },
    decreases pairs.len(),
{
    let code = pairs[i].0;
    let prefix = pairs.drop_last();
    assert(forall|j: int| 0 <= j < pairs.len() - 1 ==> #[trigger] prefix[j] == pairs[j]);
    if i == pairs.len() - 1 {
        lemma_unmentioned_code_unchanged(table, prefix, code);
    } else {
        lemma_mentioned_code_updated(table, prefix, i);
    }
}

/// Lookup law: a code that a table does not contain is still absent after an
/// update whose snapshot does not mention it, is present after any update
/// whose snapshot does mention it, and a code once present stays present
/// through every later update.
pub proof fn lemma_observation(table: Map<u64, Button>, pairs: Seq<(u64, bool)>, code: u64)
    ensures
        !table.contains_key(code) && (forall|i: int|
            0 <= i < pairs.len() ==> (#[trigger] pairs[i]).0 != code) ==> !updated_table(
            table,
            pairs,
        ).contains_key(code),
        (exists|i: int| 0 <= i < pairs.len() && (#[trigger] pairs[i]).0 == code)
            ==> updated_table(table, pairs).contains_key(code),
        table.contains_key(code) ==> updated_table(table, pairs).contains_key(code),
    decreases pairs.len(),
{
    if pairs.len() > 0 {
        lemma_observation(table, pairs.drop_last(), code);
        if (exists|i: int| 0 <= i < pairs.len() && (#[trigger] pairs[i]).0 == code) {
            let i = choose|i: int| 0 <= i < pairs.len() && (#[trigger] pairs[i]).0 == code;
            if i < pairs.len() - 1 {
                assert(pairs.drop_last()[i] == pairs[i]);
            }
        }
        assert(forall|i: int|
            0 <= i < pairs.len() - 1 ==> #[trigger] pairs.drop_last()[i] == pairs[i]);
    }
}

} // verus!
