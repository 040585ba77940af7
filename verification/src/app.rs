//! The running session: the list, the selection, the input buffer and the
//! mode, with one method for each thing the user can do.

use crate::event::{Action, Event, Key, KeyKind};
use crate::item::{item_models, TodoItem};
use crate::model::{Mode, Model};
use vstd::prelude::*;
use vstd::string::StringExecFns;

verus! {

/// The name of the snapshot file. It is looked up in the working directory
/// of the process.
pub const SAVE_FILE_NAME: &'static str = "todos.json";

/// The state of a session.
///
/// Only the list is ever written out; the selection, the input buffer and
/// the mode live and die with the session.
pub struct App {
    todos: Vec<TodoItem>,
    selected: Option<usize>,
    input: String,
    mode: Mode,
}

impl View for App {
    type V = Model;

    closed spec fn view(&self) -> Model {
        Model {
            items: item_models(self.todos@),
            selected: match self.selected {
                Some(i) => Some(i as nat),
                None => None,
            },
            input: self.input@,
            mode: self.mode,
        }
    }
}

impl App {
    /// A first run: the four tutorial entries, the first of them selected,
    /// navigation mode, nothing typed.
    pub fn new() -> (app: App)
        ensures
            app@ == Model::initial(),
            app@.well_formed(),
    {
        let mut todos: Vec<TodoItem> = Vec::new();
        todos.push(TodoItem::new("Press 'a' to add a todo".to_owned()));
        todos.push(TodoItem::new("Press 'Space' to toggle completion".to_owned()));
        todos.push(TodoItem::new("Press 'd' to delete a todo".to_owned()));
        todos.push(TodoItem::new("Press 'q' to quit".to_owned()));
        let app = App { todos, selected: Some(0), input: String::new(), mode: Mode::Navigation };
        assert(app@.items =~= Model::tutorial());
        app
    }

    /// The session at startup, given what was read back from the snapshot.
    ///
    /// `stored` is the list that was read and decoded, or `None` when there
    /// was no file, or it could not be read or decoded. A stored list with
    /// at least one entry replaces the tutorial entries and its first entry
    /// is selected; otherwise the session starts as a first run does.
    pub fn load(stored: Option<Vec<TodoItem>>) -> (app: App)
        ensures
            app@ == Model::restored(
                match stored {
                    Some(list) => Some(item_models(list@)),
                    None => None,
                },
            ),
            app@.well_formed(),
    {
        match stored {
            Some(list) => {
                if list.len() > 0 {
                    App {
                        todos: list,
                        selected: Some(0),
                        input: String::new(),
                        mode: Mode::Navigation,
                    }
                } else {
                    App::new()
                }
            },
            None => App::new(),
        }
    }

    /// The list, in display order. This is what a save writes out.
    pub fn todos(&self) -> (list: &Vec<TodoItem>)
        ensures
            item_models(list@) == self@.items,
    {
        &self.todos
    }

    /// The selected position, if any.
    pub fn selected(&self) -> (cursor: Option<usize>)
        ensures
            match cursor {
                Some(i) => self@.selected == Some(i as nat),
                None => self@.selected is None,
            },
    {
        self.selected
    }

    /// The text typed so far for a new entry.
    pub fn input(&self) -> (text: &str)
        ensures
            text@ == self@.input,
    {
        self.input.as_str()
    }

    /// The current mode.
    pub fn mode(&self) -> (mode: Mode)
        ensures
            mode == self@.mode,
    {
        self.mode
    }

    /// Moves the selection one entry down, wrapping from the last entry to
    /// the first. Does nothing on an empty list.
    pub fn next(&mut self)
        ensures
            final(self)@ == old(self)@.next(),
            old(self)@.well_formed() ==> final(self)@.well_formed(),
    {
        if self.todos.len() == 0 {
            return;
        }
        let target: usize = match self.selected {
            Some(i) => {
                if i >= self.todos.len() - 1 {
                    0
                } else {
                    i + 1
                }
            },
            None => 0,
        };
        self.selected = Some(target);
    }

    /// Moves the selection one entry up, wrapping from the first entry to
    /// the last. Does nothing on an empty list.
    pub fn previous(&mut self)
        ensures
            final(self)@ == old(self)@.previous(),
            old(self)@.well_formed() ==> final(self)@.well_formed(),
    {
        if self.todos.len() == 0 {
            return;
        }
        let target: usize = match self.selected {
            Some(i) => {
                if i == 0 {
                    self.todos.len() - 1
                } else {
                    i - 1
                }
            },
            None => 0,
        };
        self.selected = Some(target);
    }

    /// Flips the completion flag of the selected entry. Returns whether the
    /// list changed, in which case it is due to be saved.
    pub fn toggle_completed(&mut self) -> (changed: bool)
        ensures
            final(self)@ == old(self)@.toggle(),
            changed == old(self)@.has_target(),
            old(self)@.well_formed() ==> final(self)@.well_formed(),
    {
        match self.selected {
            Some(i) => {
                if i < self.todos.len() {
                    self.todos[i].completed = !self.todos[i].completed;
                    assert(self@.items =~= old(self)@.toggle().items);
                    true
                } else {
                    false
                }
            },
            None => false,
        }
    }

    /// Removes the selected entry and repairs the selection: it stays where
    /// it was, moves up when the last entry was removed, and is dropped when
    /// the list became empty. Returns whether the list changed, in which
    /// case it is due to be saved.
    pub fn delete_selected(&mut self) -> (changed: bool)
        ensures
            final(self)@ == old(self)@.delete(),
            changed == old(self)@.has_target(),
            old(self)@.well_formed() ==> final(self)@.well_formed(),
    {
        match self.selected {
            Some(i) => {
                if i < self.todos.len() {
                    self.todos.remove(i);
                    if self.todos.len() > 0 {
                        let cursor: usize = if i >= self.todos.len() {
                            self.todos.len() - 1
                        } else {
                            i
                        };
                        self.selected = Some(cursor);
                    } else {
                        self.selected = None;
                    }
                    assert(self@.items =~= old(self)@.delete().items);
                    true
                } else {
                    false
                }
            },
            None => false,
        }
    }

    /// Commits the input buffer as a new entry at the end of the list: the
    /// entry is pending, it becomes the selected one, the buffer is emptied
    /// and navigation mode restored. With an empty buffer nothing happens,
    /// and the mode stays as it is. Returns whether the list changed, in
    /// which case it is due to be saved.
    pub fn add_todo(&mut self) -> (changed: bool)
        ensures
            final(self)@ == old(self)@.commit(),
            changed == (old(self)@.input.len() > 0),
            old(self)@.well_formed() ==> final(self)@.well_formed(),
    {
        if !self.input.as_str().is_empty() {
            self.todos.push(TodoItem::new(self.input.clone()));
            self.input = String::new();
            self.mode = Mode::Navigation;
            self.selected = Some(self.todos.len() - 1);
            assert(self@.items =~= old(self)@.commit().items);
            true
        } else {
            false
        }
    }

    /// Handles one key press: updates the session as the mode prescribes
    /// and tells the driver what to do next.
    pub fn handle_key(&mut self, key: Key) -> (action: Action)
        ensures
            (final(self)@, action) == old(self)@.press(key),
            old(self)@.well_formed() ==> final(self)@.well_formed(),
    {
        match self.mode {
            Mode::Input => match key {
                Key::Enter => {
                    let changed = self.add_todo();
                    Action::save_if(changed)
                },
                Key::Char(c) => {
                    self.input.push(c);
                    Action::Continue
                },
                Key::Backspace => {
                    self.input.pop();
                    Action::Continue
                },
                Key::Esc => {
                    self.mode = Mode::Navigation;
                    self.input = String::new();
                    Action::Continue
                },
                _ => Action::Continue,
            },
            Mode::Navigation => match key {
                Key::Char('q') => Action::Quit,
                Key::Down | Key::Char('j') => {
                    self.next();
                    Action::Continue
                },
                Key::Up | Key::Char('k') => {
                    self.previous();
                    Action::Continue
                },
                Key::Char(' ') => {
                    let changed = self.toggle_completed();
                    Action::save_if(changed)
                },
                Key::Char('d') => {
                    let changed = self.delete_selected();
                    Action::save_if(changed)
                },
                Key::Char('a') => {
                    self.mode = Mode::Input;
                    Action::Continue
                },
                _ => Action::Continue,
            },
        }
    }

    /// Handles one event from the terminal. Only key presses are acted on;
    /// a key held or released, and every event that is not a key event,
    /// leaves the session as it is.
    pub fn handle_event(&mut self, event: Event) -> (action: Action)
        ensures
            (final(self)@, action) == old(self)@.step(event),
            old(self)@.well_formed() ==> final(self)@.well_formed(),
    {
        match event {
            Event::Key(key, kind) => match kind {
                KeyKind::Press => self.handle_key(key),
                _ => Action::Continue,
            },
            Event::Other => Action::Continue,
        }
    }

    /// The line for the input panel.
    pub fn prompt(&self) -> (line: String)
        ensures
            line@ == self@.prompt(),
    {
        match self.mode {
            Mode::Input => {
                let mut line = "New todo: ".to_owned();
                line.append(self.input.as_str());
                line.append(" (Press Enter to confirm, Esc to cancel)");
                line
            },
            Mode::Navigation => "Press 'a' to add a new todo".to_owned(),
        }
    }
}

} // verus!
