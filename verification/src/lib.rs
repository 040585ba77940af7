//! The model and controller of a small terminal task list.
//!
//! A session is an ordered list of entries, a selected position, an input
//! buffer and a mode. [`App`] holds it and changes it one event at a time;
//! [`Model`] is the same state as a mathematical value, on which every
//! transition is a function and every invariant a theorem. Reading keys,
//! drawing frames and writing the snapshot are left to the caller, which
//! is told after each event what it has to do.

pub mod app;
pub mod event;
pub mod item;
pub mod laws;
pub mod model;
pub mod text;

pub use app::{App, SAVE_FILE_NAME};
pub use event::{Action, Event, Key, KeyKind};
pub use item::{ItemModel, TodoItem};
pub use model::{Mode, Model};
