//! Live keyboard state for the four control keys.
//!
//! Key events set or clear one flag each; the paddle motion pass reads
//! the flags once per tick. Keys outside the four recognized ones never
//! reach this module: they are a fixed enumerated set, not a keymap.

use vstd::prelude::*;

verus! {

/// One of the four recognized control keys.
#[derive(Clone, Copy, PartialEq, Eq, Structural, Debug)]
pub enum Key {
    KeyW,
    KeyS,
    ArrowUp,
    ArrowDown,
}

/// A discrete press (`pressed == true`) or release notification for one key.
#[derive(Clone, Copy, PartialEq, Eq, Structural, Debug)]
pub struct KeyEvent {
    pub key: Key,
    pub pressed: bool,
}

/// The pressed/released status of the four control keys.
#[derive(Clone, Copy, PartialEq, Eq, Structural, Debug)]
pub struct InputState {
    pub key_w: bool,
    pub key_s: bool,
    pub arrow_up: bool,
    pub arrow_down: bool,
}

/// The state after one event: the matching flag takes the event's
/// pressed status, the other flags keep theirs.
pub open spec fn spec_apply_event(s: InputState, e: KeyEvent) -> InputState {
    match e.key {
        Key::KeyW => InputState { key_w: e.pressed, ..s },
        Key::KeyS => InputState { key_s: e.pressed, ..s },
        Key::ArrowUp => InputState { arrow_up: e.pressed, ..s },
        Key::ArrowDown => InputState { arrow_down: e.pressed, ..s },
    }
}

/// The state after a sequence of events, applied in order: per flag,
/// the last write wins.
pub open spec fn spec_apply_events(s: InputState, evs: Seq<KeyEvent>) -> InputState
    decreases evs.len(),
{
    if evs.len() == 0 {
        s
    } else {
        spec_apply_event(spec_apply_events(s, evs.drop_last()), evs.last())
    }
}

impl InputState {
    /// All four keys released, as at startup.
    pub fn new() -> (r: InputState)
        ensures
            r == (InputState { key_w: false, key_s: false, arrow_up: false, arrow_down: false }),
    {
        InputState { key_w: false, key_s: false, arrow_up: false, arrow_down: false }
    }

    /// Records one press or release notification.
    pub fn on_key_event(&mut self, key: Key, pressed: bool)
        ensures
            *final(self) == spec_apply_event(*old(self), (KeyEvent { key, pressed })),
    {
        match key {
            Key::KeyW => {
                self.key_w = pressed;
            },
            Key::KeyS => {
                self.key_s = pressed;
            },
            Key::ArrowUp => {
                self.arrow_up = pressed;
            },
            Key::ArrowDown => {
                self.arrow_down = pressed;
            },
        }
    }

    /// Returns the current flags; never blocks and never mutates.
    pub fn read(&self) -> (r: InputState)
        ensures
            r == *self,
    {
        *self
    }
}

impl Default for InputState {
    /// All four keys released.
    fn default() -> (r: InputState)
        ensures
            r == (InputState { key_w: false, key_s: false, arrow_up: false, arrow_down: false }),
    {
        InputState { key_w: false, key_s: false, arrow_up: false, arrow_down: false }
    }
}

/// Applies a batch of key events in order, as the event pump hands them
/// over between ticks.
pub fn handle_input(state: &mut InputState, events: &Vec<KeyEvent>)
    ensures
        *final(state) == spec_apply_events(*old(state), events@),
{
    let mut i: usize = 0;
    while i < events.len()
        invariant
            i <= events.len(),
            *state == spec_apply_events(*old(state), events@.take(i as int)),
        decreases events.len() - i,
    {
        let e = events[i];
        state.on_key_event(e.key, e.pressed);
        proof {
            assert(events@.take(i + 1).drop_last() =~= events@.take(i as int));
        }
        i = i + 1;
    }
    proof {
        assert(events@.take(events.len() as int) =~= events@);
    }
}

} // verus!
