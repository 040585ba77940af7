//! What holds of every session, proved over the model.

use crate::event::{Action, Event, Key, KeyKind};
use crate::item::ItemModel;
use crate::model::{Mode, Model};
use vstd::arithmetic::div_mod::{
    lemma_mod_add_multiples_vanish, lemma_mod_self_0, lemma_small_mod,
};
use vstd::prelude::*;

verus! {

impl Model {
    /// The state after a whole sequence of events, handled in order.
    pub open spec fn run(self, events: Seq<Event>) -> Model
        decreases events.len(),
    {
        if events.len() == 0 {
            self
        } else {
            self.run(events.drop_last()).step(events.last()).0
        }
    }
}

/// A session starts well-formed, whatever was read back from the snapshot.
pub proof fn lemma_startup_well_formed(stored: Option<Seq<ItemModel>>)
    ensures
        Model::initial().well_formed(),
        Model::restored(stored).well_formed(),
{
}

/// Each single transition keeps the selection invariant: afterwards nothing
/// is selected exactly when the list is empty, and a selected position lies
/// inside the list.
pub proof fn lemma_transitions_keep_selection_valid(m: Model, c: char)
    requires
        m.selection_valid(),
    ensures
        m.next().selection_valid(),
        m.previous().selection_valid(),
        m.toggle().selection_valid(),
        m.delete().selection_valid(),
        m.commit().selection_valid(),
        m.begin_input().selection_valid(),
        m.type_char(c).selection_valid(),
        m.erase().selection_valid(),
        m.cancel().selection_valid(),
{
}

/// Handling an event keeps the selection invariant.
pub proof fn lemma_step_keeps_selection_valid(m: Model, event: Event)
    requires
        m.selection_valid(),
    ensures
        m.step(event).0.selection_valid(),
{
}

/// Handling an event keeps a session well-formed: the selection invariant
/// holds, and outside input mode the buffer is empty.
pub proof fn lemma_step_keeps_well_formed(m: Model, event: Event)
    requires
        m.well_formed(),
    ensures
        m.step(event).0.well_formed(),
{
}

/// The selection invariant holds after every event of every sequence of
/// events, from any state in which it holds.
pub proof fn lemma_run_keeps_selection_valid(m: Model, events: Seq<Event>)
    requires
        m.selection_valid(),
    ensures
        m.run(events).selection_valid(),
    decreases events.len(),
{
    if events.len() > 0 {
        lemma_run_keeps_selection_valid(m, events.drop_last());
        lemma_step_keeps_selection_valid(m.run(events.drop_last()), events.last());
    }
}

/// A session is well-formed after every event of every sequence of events,
/// whatever it was started from.
pub proof fn lemma_session_always_well_formed(
    stored: Option<Seq<ItemModel>>,
    events: Seq<Event>,
)
    ensures
        Model::restored(stored).run(events).well_formed(),
    decreases events.len(),
{
    if events.len() > 0 {
        lemma_session_always_well_formed(stored, events.drop_last());
        lemma_step_keeps_well_formed(
            Model::restored(stored).run(events.drop_last()),
            events.last(),
        );
    }
}

/// Moving down from the last entry selects the first one.
pub proof fn lemma_next_wraps(m: Model)
    requires
        m.items.len() > 0,
        m.selected == Some((m.items.len() - 1) as nat),
    ensures
        m.next() == (Model { selected: Some(0), ..m }),
{
}

/// Moving up from the first entry selects the last one.
pub proof fn lemma_previous_wraps(m: Model)
    requires
        m.items.len() > 0,
        m.selected == Some(0nat),
    ensures
        m.previous() == (Model { selected: Some((m.items.len() - 1) as nat), ..m }),
{
}

/// On an empty list neither move does anything.
pub proof fn lemma_navigation_idle_on_empty_list(m: Model)
    requires
        m.items.len() == 0,
    ensures
        m.next() == m,
        m.previous() == m,
{
}

/// Navigation is circular: on a list of `n` entries with position `i`
/// selected, moving down selects `i + 1` modulo `n` and moving up selects
/// `i - 1` modulo `n`.
pub proof fn lemma_navigation_is_circular(m: Model, i: nat)
    requires
        m.selected == Some(i),
        i < m.items.len(),
    ensures
        m.next().selected == Some(((i as int + 1) % (m.items.len() as int)) as nat),
        m.previous().selected == Some(
            ((i as int + m.items.len() - 1) % (m.items.len() as int)) as nat,
        ),
{
    let n = m.items.len() as int;
    if i + 1 < n {
        lemma_small_mod(i + 1, n as nat);
    } else {
        lemma_mod_self_0(n);
    }
    if i > 0 {
        lemma_mod_add_multiples_vanish(i as int - 1, n);
        lemma_small_mod((i - 1) as nat, n as nat);
    } else {
        lemma_small_mod((n - 1) as nat, n as nat);
    }
}

/// Where the selection invariant holds, moving down and moving up undo
/// each other.
pub proof fn lemma_next_and_previous_cancel(m: Model)
    requires
        m.selection_valid(),
    ensures
        m.next().previous() == m,
        m.previous().next() == m,
{
}

/// How a delete repairs the selection: the entry at the selected position
/// is gone and the others keep their order; the selection is dropped with
/// the sole entry, moves up by one from the last position, and stays put
/// anywhere else, where it then designates the entry that followed.
pub proof fn lemma_delete_repairs_selection(m: Model, i: nat)
    requires
        m.selected == Some(i),
        i < m.items.len(),
    ensures
        m.delete().items == m.items.remove(i as int),
        m.delete().input == m.input,
        m.delete().mode == m.mode,
        m.items.len() == 1 ==> m.delete().selected is None,
        m.items.len() > 1 && i == m.items.len() - 1 ==> m.delete().selected == Some(
            (i - 1) as nat,
        ),
        i + 1 < m.items.len() ==> m.delete().selected == Some(i) && m.delete().items[i as int]
            == m.items[i as int + 1],
{
}

/// A list that is not empty comes back from the snapshot as it went in:
/// same entries, same order, same text and flags.
pub proof fn lemma_restore_returns_stored_list(items: Seq<ItemModel>)
    requires
        items.len() > 0,
    ensures
        Model::restored(Some(items)).items == items,
        Model::restored(Some(items)).selected == Some(0nat),
{
}

/// With nothing read back, or an empty list, the session starts as a first
/// run does.
pub proof fn lemma_nothing_stored_is_first_run()
    ensures
        Model::restored(None) == Model::initial(),
        Model::restored(Some(Seq::empty())) == Model::initial(),
        Model::initial().items.len() == 4,
{
}

/// Committing an empty buffer changes nothing: the list stays as it is, the
/// mode stays `Input`, and no save is due.
pub proof fn lemma_commit_of_empty_buffer_is_idle(m: Model)
    requires
        m.input.len() == 0,
    ensures
        m.commit() == m,
        m.mode == Mode::Input ==> m.press(Key::Enter) == (m, Action::Continue),
{
}

/// Committing typed text appends it as a pending entry, selects that entry,
/// empties the buffer, returns to navigation mode, and asks for a save.
pub proof fn lemma_commit_appends(m: Model)
    requires
        m.input.len() > 0,
    ensures
        m.commit().items == m.items.push(ItemModel::pending(m.input)),
        m.commit().selected == Some((m.commit().items.len() - 1) as nat),
        m.commit().input.len() == 0,
        m.commit().mode == Mode::Navigation,
        m.mode == Mode::Input ==> m.press(Key::Enter) == (m.commit(), Action::Save),
{
}

/// Toggling twice gives back the state before the first toggle, and a
/// single toggle changes neither the length of the list nor any text.
pub proof fn lemma_toggle_twice(m: Model)
    ensures
        m.toggle().toggle() == m,
        m.toggle().items.len() == m.items.len(),
        forall|j: int|
            0 <= j < m.items.len() ==> #[trigger] m.toggle().items[j].text == m.items[j].text,
        m.toggle().selected == m.selected,
{
    assert(m.toggle().toggle().items =~= m.items);
}

/// A save is asked for exactly when the event changed the list, so what is
/// on disk is never more than one change behind.
pub proof fn lemma_save_exactly_when_list_changed(m: Model, event: Event)
    ensures
        m.step(event).1 == Action::Save <==> m.step(event).0.items != m.items,
{
    let after = m.step(event).0;
    if m.step(event).1 == Action::Save {
        if m.mode == Mode::Navigation && event == Event::Key(Key::Char(' '), KeyKind::Press) {
            let i = m.selected->0 as int;
            assert(after.items[i].completed != m.items[i].completed);
        } else {
            assert(after.items.len() != m.items.len());
        }
    }
}

/// The loop ends on `q` pressed in navigation mode and on nothing else,
/// and that key press changes nothing.
pub proof fn lemma_quit_only_from_navigation(m: Model, event: Event)
    ensures
        m.step(event).1 == Action::Quit <==> m.mode == Mode::Navigation && event == Event::Key(
            Key::Char('q'),
            KeyKind::Press,
        ),
        m.step(event).1 == Action::Quit ==> m.step(event).0 == m,
{
}

/// The mode changes in three ways only: the add key in navigation mode
/// enters input mode; Esc, and Enter on a buffer that is not empty, leave
/// it.
pub proof fn lemma_mode_changes(m: Model, event: Event)
    ensures
        m.step(event).0.mode != m.mode <==> {
            ||| m.mode == Mode::Navigation && event == Event::Key(Key::Char('a'), KeyKind::Press)
            ||| m.mode == Mode::Input && event == Event::Key(Key::Esc, KeyKind::Press)
            ||| m.mode == Mode::Input && event == Event::Key(Key::Enter, KeyKind::Press)
                && m.input.len() > 0
        },
{
}

} // verus!
