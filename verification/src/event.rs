//! The input events that drive the list, and what the driver must do after
//! each of them.

use vstd::prelude::*;

verus! {

/// The keys the list reacts to. Every other key is `Other`.
#[derive(Clone, Copy, Debug, PartialEq, Eq, Structural)]
pub enum Key {
    /// A printable character.
    Char(char),
    Enter,
    Backspace,
    Esc,
    Up,
    Down,
    Other,
}

/// Whether a key went down, is being held, or came up.
#[derive(Clone, Copy, Debug, PartialEq, Eq, Structural)]
pub enum KeyKind {
    Press,
    Repeat,
    Release,
}

/// One event polled from the terminal.
#[derive(Clone, Copy, Debug, PartialEq, Eq, Structural)]
pub enum Event {
    /// A key event.
    Key(Key, KeyKind),
    /// Anything that is not a key event: a resize, the mouse, focus.
    Other,
}

/// What the driver has to do once an event has been handled.
#[derive(Clone, Copy, Debug, PartialEq, Eq, Structural)]
pub enum Action {
    /// Nothing: draw the next frame.
    Continue,
    /// The list changed: write it out, then draw the next frame.
    Save,
    /// Leave the loop.
    Quit,
}

impl Action {
    /// `Save` when the list changed, `Continue` when it did not.
    pub open spec fn spec_save_if(changed: bool) -> Action {
        if changed {
            Action::Save
        } else {
            Action::Continue
        }
    }

    /// `Save` when the list changed, `Continue` when it did not.
    #[verifier::when_used_as_spec(spec_save_if)]
    pub fn save_if(changed: bool) -> (action: Action)
        ensures
            action == Action::spec_save_if(changed),
    {
        if changed {
            Action::Save
        } else {
            Action::Continue
        }
    }
}

} // verus!
