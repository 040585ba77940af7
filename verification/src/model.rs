//! The state of a session as a mathematical value, and every transition of
//! it as a function from state to state.

use crate::event::{Action, Event, Key, KeyKind};
use crate::item::ItemModel;
use vstd::prelude::*;

verus! {

/// How key presses are read.
#[derive(Clone, Copy, Debug, PartialEq, Eq, Structural)]
pub enum Mode {
    /// Keys move the selection or act on the selected entry.
    Navigation,
    /// Keys compose the text of a new entry.
    Input,
}

/// The state of a session: the entries in display order, the selected
/// position, the text typed so far for a new entry, and the mode.
pub struct Model {
    pub items: Seq<ItemModel>,
    pub selected: Option<nat>,
    pub input: Seq<char>,
    pub mode: Mode,
}

impl Model {
    /// The selection invariant: nothing is selected exactly when the list is
    /// empty, and a selected position lies inside the list.
    pub open spec fn selection_valid(self) -> bool {
        match self.selected {
            None => self.items.len() == 0,
            Some(i) => i < self.items.len(),
        }
    }

    /// The input buffer holds text only while the mode is `Input`.
    pub open spec fn buffer_at_rest(self) -> bool {
        self.mode == Mode::Navigation ==> self.input.len() == 0
    }

    /// Both invariants of a session.
    pub open spec fn well_formed(self) -> bool {
        self.selection_valid() && self.buffer_at_rest()
    }

    /// The selection points at an entry of the list.
    pub open spec fn has_target(self) -> bool {
        self.selected matches Some(i) && i < self.items.len()
    }

    /// The four entries a first run starts with.
    pub open spec fn tutorial() -> Seq<ItemModel> {
        seq![
            ItemModel::pending("Press 'a' to add a todo"@),
            ItemModel::pending("Press 'Space' to toggle completion"@),
            ItemModel::pending("Press 'd' to delete a todo"@),
            ItemModel::pending("Press 'q' to quit"@),
        ]
    }

    /// A session over the given entries with the first one selected, in
    /// navigation mode, with nothing typed.
    pub open spec fn over(items: Seq<ItemModel>) -> Model {
        Model { items, selected: Some(0), input: Seq::empty(), mode: Mode::Navigation }
    }

    /// The state of a first run.
    pub open spec fn initial() -> Model {
        Model::over(Model::tutorial())
    }

    /// The state at startup, given what was read back from the snapshot:
    /// a stored list that is not empty replaces the tutorial entries;
    /// no list, or an empty one, gives the state of a first run.
    pub open spec fn restored(stored: Option<Seq<ItemModel>>) -> Model {
        match stored {
            Some(items) if items.len() > 0 => Model::over(items),
            _ => Model::initial(),
        }
    }

    /// Selection moved one entry down, from the last entry to the first.
    /// An empty list is left alone; with nothing selected the first entry
    /// is taken.
    pub open spec fn next(self) -> Model {
        if self.items.len() == 0 {
            self
        } else {
            let target: nat = match self.selected {
                Some(i) if i + 1 < self.items.len() => i + 1,
                _ => 0,
            };
            Model { selected: Some(target), ..self }
        }
    }

    /// Selection moved one entry up, from the first entry to the last.
    /// An empty list is left alone; with nothing selected the first entry
    /// is taken.
    pub open spec fn previous(self) -> Model {
        if self.items.len() == 0 {
            self
        } else {
            let target: nat = match self.selected {
                Some(i) if i > 0 => (i - 1) as nat,
                Some(_) => (self.items.len() - 1) as nat,
                None => 0,
            };
            Model { selected: Some(target), ..self }
        }
    }

    /// The selected entry with its completion flag flipped; no change
    /// without a selected entry.
    pub open spec fn toggle(self) -> Model {
        match self.selected {
            Some(i) if i < self.items.len() => Model {
                items: self.items.update(i as int, self.items[i as int].flipped()),
                ..self
            },
            _ => self,
        }
    }

    /// The selected entry removed. The selection stays at the same position,
    /// which then holds the entry that followed; it moves to the new last
    /// entry when the last one was removed, and is gone when the list is
    /// empty. No change without a selected entry.
    pub open spec fn delete(self) -> Model {
        match self.selected {
            Some(i) if i < self.items.len() => {
                let rest = self.items.remove(i as int);
                let cursor: Option<nat> = if rest.len() == 0 {
                    None
                } else if i >= rest.len() {
                    Some((rest.len() - 1) as nat)
                } else {
                    Some(i)
                };
                Model { items: rest, selected: cursor, ..self }
            },
            _ => self,
        }
    }

    /// Input mode entered; nothing else changes.
    pub open spec fn begin_input(self) -> Model {
        Model { mode: Mode::Input, ..self }
    }

    /// One character appended to the input buffer.
    pub open spec fn type_char(self, c: char) -> Model {
        Model { input: self.input.push(c), ..self }
    }

    /// The last character of the input buffer removed; an empty buffer
    /// stays empty.
    pub open spec fn erase(self) -> Model {
        if self.input.len() == 0 {
            self
        } else {
            Model { input: self.input.drop_last(), ..self }
        }
    }

    /// The input buffer discarded and navigation mode restored; the list is
    /// untouched.
    pub open spec fn cancel(self) -> Model {
        Model { input: Seq::empty(), mode: Mode::Navigation, ..self }
    }

    /// The input buffer committed as a new pending entry at the end of the
    /// list, which becomes the selected one; the buffer is emptied and
    /// navigation mode restored. With an empty buffer nothing changes, the
    /// mode included. The text is taken as typed, blanks and all.
    pub open spec fn commit(self) -> Model {
        if self.input.len() == 0 {
            self
        } else {
            Model {
                items: self.items.push(ItemModel::pending(self.input)),
                selected: Some(self.items.len()),
                input: Seq::empty(),
                mode: Mode::Navigation,
            }
        }
    }

    /// The state after a key press, and what the driver has to do.
    ///
    /// In navigation mode `q` quits, the arrows and `j`/`k` move the
    /// selection, the space bar toggles, `d` deletes and `a` enters input
    /// mode. In input mode every character is text, so there is no key to
    /// quit with: Enter commits, Backspace erases, Esc cancels. A toggle,
    /// a delete or a commit that changed the list asks for a save.
    pub open spec fn press(self, key: Key) -> (Model, Action) {
        match self.mode {
            Mode::Input => match key {
                Key::Enter => (self.commit(), Action::save_if(self.input.len() > 0)),
                Key::Char(c) => (self.type_char(c), Action::Continue),
                Key::Backspace => (self.erase(), Action::Continue),
                Key::Esc => (self.cancel(), Action::Continue),
                _ => (self, Action::Continue),
            },
            Mode::Navigation => match key {
                Key::Char('q') => (self, Action::Quit),
                Key::Down | Key::Char('j') => (self.next(), Action::Continue),
                Key::Up | Key::Char('k') => (self.previous(), Action::Continue),
                Key::Char(' ') => (self.toggle(), Action::save_if(self.has_target())),
                Key::Char('d') => (self.delete(), Action::save_if(self.has_target())),
                Key::Char('a') => (self.begin_input(), Action::Continue),
                _ => (self, Action::Continue),
            },
        }
    }

    /// The state after an event, and what the driver has to do. Only key
    /// presses count: a key held or released, and any event that is not a
    /// key event, changes nothing.
    pub open spec fn step(self, event: Event) -> (Model, Action) {
        match event {
            Event::Key(key, KeyKind::Press) => self.press(key),
            _ => (self, Action::Continue),
        }
    }

    /// The line shown in the input panel: the text typed so far between a
    /// label and a hint while in input mode, a hint alone otherwise.
    pub open spec fn prompt(self) -> Seq<char> {
        match self.mode {
            Mode::Input => "New todo: "@ + self.input
                + " (Press Enter to confirm, Esc to cancel)"@,
            Mode::Navigation => "Press 'a' to add a new todo"@,
        }
    }
}

} // verus!
