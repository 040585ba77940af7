use todo_list::{App, Mode, TodoItem};

fn item(text: &str) -> TodoItem {
    TodoItem { text: text.to_string(), completed: false }
}

fn three() -> App {
    App::load(Some(vec![item("a"), item("b"), item("c")]))
}

fn emptied() -> App {
    let mut app = App::load(Some(vec![item("a")]));
    assert!(app.delete_selected());
    app
}

fn texts(app: &App) -> Vec<String> {
    app.todos().iter().map(|t| t.text.clone()).collect()
}

#[test]
fn next_advances_by_one() {
    let mut app = three();
    app.next();
    assert_eq!(app.selected(), Some(1));
    app.next();
    assert_eq!(app.selected(), Some(2));
}

#[test]
fn next_wraps_from_the_last_entry_to_the_first() {
    let mut app = three();
    app.next();
    app.next();
    assert_eq!(app.selected(), Some(2));
    app.next();
    assert_eq!(app.selected(), Some(0));
}

#[test]
fn previous_wraps_from_the_first_entry_to_the_last() {
    let mut app = three();
    assert_eq!(app.selected(), Some(0));
    app.previous();
    assert_eq!(app.selected(), Some(2));
    app.previous();
    assert_eq!(app.selected(), Some(1));
}

#[test]
fn navigation_on_a_single_entry_stays_put() {
    let mut app = App::load(Some(vec![item("only")]));
    app.next();
    assert_eq!(app.selected(), Some(0));
    app.previous();
    assert_eq!(app.selected(), Some(0));
}

#[test]
fn navigation_does_nothing_on_an_empty_list() {
    let mut app = emptied();
    assert_eq!(app.selected(), None);
    app.next();
    assert_eq!(app.selected(), None);
    app.previous();
    assert_eq!(app.selected(), None);
    assert!(app.todos().is_empty());
}

#[test]
fn navigation_leaves_list_mode_and_buffer_alone() {
    let mut app = three();
    app.next();
    app.previous();
    app.previous();
    assert_eq!(texts(&app), vec!["a", "b", "c"]);
    assert_eq!(app.mode(), Mode::Navigation);
    assert_eq!(app.input(), "");
}

#[test]
fn next_then_previous_returns_to_the_same_entry() {
    let mut app = three();
    for start in 0..3 {
        assert_eq!(app.selected(), Some(start));
        app.next();
        app.previous();
        assert_eq!(app.selected(), Some(start));
        app.previous();
        app.next();
        assert_eq!(app.selected(), Some(start));
        app.next();
    }
}

#[test]
fn toggle_flips_the_selected_entry_only() {
    let mut app = three();
    app.next();
    assert!(app.toggle_completed());
    assert!(!app.todos()[0].completed);
    assert!(app.todos()[1].completed);
    assert!(!app.todos()[2].completed);
    assert_eq!(app.selected(), Some(1));
}

#[test]
fn toggle_twice_restores_the_flag_and_keeps_the_list() {
    let mut app = App::load(Some(vec![
        item("a"),
        TodoItem { text: "b".to_string(), completed: true },
        item("c"),
    ]));
    app.next();
    let before: Vec<TodoItem> = app.todos().clone();
    assert!(app.toggle_completed());
    assert!(!app.todos()[1].completed);
    assert_eq!(app.todos().len(), 3);
    assert_eq!(texts(&app), vec!["a", "b", "c"]);
    assert!(app.toggle_completed());
    assert_eq!(app.todos(), &before);
    assert_eq!(app.selected(), Some(1));
}

#[test]
fn toggle_without_a_selection_changes_nothing() {
    let mut app = emptied();
    assert!(!app.toggle_completed());
    assert!(app.todos().is_empty());
    assert_eq!(app.selected(), None);
}

#[test]
fn delete_of_the_last_entry_moves_the_selection_up() {
    let mut app = three();
    app.next();
    app.next();
    assert_eq!(app.selected(), Some(2));
    assert!(app.delete_selected());
    assert_eq!(app.selected(), Some(1));
    assert_eq!(texts(&app), vec!["a", "b"]);
}

#[test]
fn delete_of_a_middle_entry_keeps_the_position() {
    let mut app = three();
    app.next();
    assert_eq!(app.selected(), Some(1));
    assert!(app.delete_selected());
    assert_eq!(app.selected(), Some(1));
    assert_eq!(texts(&app), vec!["a", "c"]);
    assert_eq!(app.todos()[1].text, "c");
}

#[test]
fn delete_of_the_first_entry_keeps_the_position() {
    let mut app = three();
    assert!(app.delete_selected());
    assert_eq!(app.selected(), Some(0));
    assert_eq!(texts(&app), vec!["b", "c"]);
}

#[test]
fn delete_of_the_sole_entry_drops_the_selection() {
    let mut app = App::load(Some(vec![item("only")]));
    assert!(app.delete_selected());
    assert_eq!(app.selected(), None);
    assert!(app.todos().is_empty());
}

#[test]
fn delete_without_a_selection_changes_nothing() {
    let mut app = emptied();
    assert!(!app.delete_selected());
    assert_eq!(app.selected(), None);
    assert!(app.todos().is_empty());
}

#[test]
fn delete_keeps_flags_of_the_remaining_entries() {
    let mut app = App::load(Some(vec![
        TodoItem { text: "a".to_string(), completed: true },
        item("b"),
        TodoItem { text: "c".to_string(), completed: true },
    ]));
    app.next();
    assert!(app.delete_selected());
    assert_eq!(
        app.todos(),
        &vec![
            TodoItem { text: "a".to_string(), completed: true },
            TodoItem { text: "c".to_string(), completed: true },
        ]
    );
}

#[test]
fn duplicate_texts_are_told_apart_by_position() {
    let mut app = App::load(Some(vec![item("same"), item("same"), item("same")]));
    app.next();
    assert!(app.toggle_completed());
    assert!(!app.todos()[0].completed);
    assert!(app.todos()[1].completed);
    assert!(!app.todos()[2].completed);
    assert!(app.delete_selected());
    assert_eq!(app.todos().len(), 2);
    assert!(app.todos().iter().all(|t| !t.completed));
}

#[test]
fn deleting_everything_keeps_the_selection_inside_the_list() {
    let mut app = App::new();
    app.previous();
    let mut left = app.todos().len();
    while left > 0 {
        let at = app.selected().expect("a list with entries has a selection");
        assert!(at < left);
        assert!(app.delete_selected());
        left -= 1;
        assert_eq!(app.todos().len(), left);
    }
    assert_eq!(app.selected(), None);
}
