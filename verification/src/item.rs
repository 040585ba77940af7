//! A single task entry.

use vstd::prelude::*;

verus! {

/// What a task entry is in contracts: its text as a sequence of characters
/// and its completion flag.
pub struct ItemModel {
    pub text: Seq<char>,
    pub completed: bool,
}

impl ItemModel {
    /// A pending entry with the given text.
    pub open spec fn pending(text: Seq<char>) -> ItemModel {
        ItemModel { text, completed: false }
    }

    /// The same entry with its completion flag flipped.
    pub open spec fn flipped(self) -> ItemModel {
        ItemModel { text: self.text, completed: !self.completed }
    }

    /// The marker shown in front of the entry's text.
    pub open spec fn checkbox(self) -> Seq<char> {
        if self.completed {
            "[\u{2713}] "@
        } else {
            "[ ] "@
        }
    }
}

/// One task entry: a line of text and whether it has been completed.
///
/// An entry has no identity of its own; it is known by its position in the
/// list that holds it.
#[derive(Debug, PartialEq, Eq)]
pub struct TodoItem {
    pub text: String,
    pub completed: bool,
}

impl View for TodoItem {
    type V = ItemModel;

    open spec fn view(&self) -> ItemModel {
        ItemModel { text: self.text@, completed: self.completed }
    }
}

/// The entries of a list, each taken by its view, in list order.
pub open spec fn item_models(items: Seq<TodoItem>) -> Seq<ItemModel> {
    Seq::new(items.len(), |i: int| items[i]@)
}

impl Clone for TodoItem {
    /// A copy with the same text and the same flag.
    fn clone(&self) -> (copy: TodoItem)
        ensures
            copy@ == self@,
    {
        TodoItem { text: self.text.clone(), completed: self.completed }
    }
}

impl TodoItem {
    /// A fresh entry with the given text, not yet completed.
    pub fn new(text: String) -> (item: TodoItem)
        ensures
            item@ == ItemModel::pending(text@),
    {
        TodoItem { text, completed: false }
    }

    /// The marker shown in front of the entry's text: a ticked box for a
    /// completed entry, an empty one otherwise.
    pub fn checkbox(&self) -> (mark: &'static str)
        ensures
            mark@ == self@.checkbox(),
    {
        if self.completed {
            "[\u{2713}] "
        } else {
            "[ ] "
        }
    }
}

} // verus!
