use todo_list::{App, Mode, TodoItem, SAVE_FILE_NAME};

fn entry(text: &str, completed: bool) -> TodoItem {
    TodoItem { text: text.to_string(), completed }
}

fn tutorial() -> Vec<TodoItem> {
    vec![
        entry("Press 'a' to add a todo", false),
        entry("Press 'Space' to toggle completion", false),
        entry("Press 'd' to delete a todo", false),
        entry("Press 'q' to quit", false),
    ]
}

#[test]
fn new_holds_the_four_tutorial_entries() {
    let app = App::new();
    assert_eq!(app.todos(), &tutorial());
    assert_eq!(app.todos().len(), 4);
    assert!(app.todos().iter().all(|t| !t.completed));
}

#[test]
fn new_selects_the_first_entry_in_navigation_mode() {
    let app = App::new();
    assert_eq!(app.selected(), Some(0));
    assert_eq!(app.mode(), Mode::Navigation);
    assert_eq!(app.input(), "");
}

#[test]
fn load_without_a_snapshot_gives_the_tutorial_list() {
    let app = App::load(None);
    assert_eq!(app.todos(), &tutorial());
    assert_eq!(app.selected(), Some(0));
    assert_eq!(app.mode(), Mode::Navigation);
    assert_eq!(app.input(), "");
}

#[test]
fn load_of_an_empty_list_gives_the_tutorial_list() {
    let app = App::load(Some(Vec::new()));
    assert_eq!(app.todos(), &tutorial());
    assert_eq!(app.selected(), Some(0));
}

#[test]
fn load_of_a_stored_list_replaces_the_tutorial_list() {
    let stored = vec![entry("water the plants", true), entry("call home", false)];
    let app = App::load(Some(stored.clone()));
    assert_eq!(app.todos(), &stored);
    assert_eq!(app.selected(), Some(0));
    assert_eq!(app.mode(), Mode::Navigation);
    assert_eq!(app.input(), "");
}

#[test]
fn load_of_a_single_entry_selects_it() {
    let app = App::load(Some(vec![entry("only", false)]));
    assert_eq!(app.todos().len(), 1);
    assert_eq!(app.selected(), Some(0));
}

#[test]
fn what_is_saved_comes_back_unchanged() {
    let mut first = App::load(Some(vec![
        entry("one", false),
        entry("two", true),
        entry("two", true),
        entry("  ", false),
    ]));
    first.next();
    first.toggle_completed();
    let saved: Vec<TodoItem> = first.todos().clone();
    let second = App::load(Some(saved.clone()));
    assert_eq!(second.todos(), &saved);
    assert_eq!(second.todos()[1], entry("two", false));
    assert_eq!(second.todos()[2], entry("two", true));
    assert_eq!(second.selected(), Some(0));
}

#[test]
fn saving_an_empty_list_restarts_with_the_tutorial_list() {
    let mut app = App::load(Some(vec![entry("last one", false)]));
    assert!(app.delete_selected());
    assert!(app.todos().is_empty());
    let again = App::load(Some(app.todos().clone()));
    assert_eq!(again.todos(), &tutorial());
}

#[test]
fn new_entry_is_pending() {
    let item = TodoItem::new("read".to_string());
    assert_eq!(item, entry("read", false));
}

#[test]
fn clone_keeps_text_and_flag() {
    let item = entry("done already", true);
    let copy = item.clone();
    assert_eq!(copy.text, "done already");
    assert!(copy.completed);
    assert_eq!(copy, item);
}

#[test]
fn checkbox_shows_the_completion_flag() {
    assert_eq!(entry("x", false).checkbox(), "[ ] ");
    assert_eq!(entry("x", true).checkbox(), "[\u{2713}] ");
}

#[test]
fn snapshot_file_is_named_todos_json() {
    assert_eq!(SAVE_FILE_NAME, "todos.json");
}
