use demo_views::color;
use demo_views::todo::{Key, KeyEvent, TodoList};

fn key(key: Key) -> KeyEvent {
    KeyEvent { key, control: false }
}

fn type_text(todo: &mut TodoList, text: &str) {
    for c in text.chars() {
        if c == ' ' {
            todo.handle_key(key(Key::Space));
        } else {
            todo.handle_key(key(Key::Character(c)));
        }
    }
}

#[test]
fn new_list_is_empty_and_unfocused() {
    let todo = TodoList::new();
    assert_eq!(todo.item_count(), 0);
    assert_eq!(todo.input_buffer().as_str(), "");
    assert!(!todo.is_focused());
}

#[test]
fn scenario_type_and_commit() {
    // "Hi there": 8 keystrokes, the space through the space key.
    let mut todo = TodoList::new();
    type_text(&mut todo, "Hi there");
    assert_eq!(todo.input_buffer().as_str(), "Hi there");
    todo.handle_key(key(Key::Enter));
    assert_eq!(todo.item_count(), 1);
    assert_eq!(todo.item_at(0).as_str(), "Hi there");
    assert_eq!(todo.input_buffer().as_str(), "");
}

#[test]
fn scenario_backspace_past_empty() {
    let mut todo = TodoList::new();
    type_text(&mut todo, "a");
    todo.handle_key(key(Key::Backspace));
    todo.handle_key(key(Key::Backspace));
    assert_eq!(todo.input_buffer().as_str(), "");
}

#[test]
fn scenario_delete_middle_item() {
    let mut todo = TodoList::new();
    for text in ["x", "y", "z"] {
        type_text(&mut todo, text);
        todo.handle_key(key(Key::Enter));
    }
    todo.delete_item(1);
    assert_eq!(todo.item_count(), 2);
    assert_eq!(todo.item_at(0).as_str(), "x");
    assert_eq!(todo.item_at(1).as_str(), "z");
}

#[test]
fn scenario_commit_empty_buffer() {
    let mut todo = TodoList::new();
    type_text(&mut todo, "kept");
    todo.handle_key(key(Key::Enter));
    let dirty = todo.handle_key(key(Key::Enter));
    assert!(!dirty);
    assert_eq!(todo.item_count(), 1);
    assert_eq!(todo.item_at(0).as_str(), "kept");
    assert_eq!(todo.input_buffer().as_str(), "");
}

#[test]
fn delete_first_and_last() {
    let mut todo = TodoList::new();
    for text in ["a", "b", "c", "d"] {
        type_text(&mut todo, text);
        todo.handle_key(key(Key::Enter));
    }
    todo.delete_item(0);
    assert_eq!(todo.item_at(0).as_str(), "b");
    todo.delete_item(2);
    assert_eq!(todo.item_count(), 2);
    assert_eq!(todo.item_at(0).as_str(), "b");
    assert_eq!(todo.item_at(1).as_str(), "c");
}

#[test]
fn duplicates_are_kept_in_order() {
    let mut todo = TodoList::new();
    for text in ["same", "same"] {
        type_text(&mut todo, text);
        todo.handle_key(key(Key::Enter));
    }
    assert_eq!(todo.item_count(), 2);
    assert_eq!(todo.item_at(0).as_str(), "same");
    assert_eq!(todo.item_at(1).as_str(), "same");
}

#[test]
fn ignored_keys_change_nothing() {
    let mut todo = TodoList::new();
    type_text(&mut todo, "ab");
    assert!(!todo.handle_key(key(Key::Other)));
    assert!(!todo.handle_key(KeyEvent { key: Key::Character('c'), control: true }));
    assert_eq!(todo.input_buffer().as_str(), "ab");
    assert_eq!(todo.item_count(), 0);
}

#[test]
fn space_key_appends_even_with_control_held() {
    let mut todo = TodoList::new();
    todo.handle_key(KeyEvent { key: Key::Space, control: true });
    assert_eq!(todo.input_buffer().as_str(), " ");
}

#[test]
fn backspace_on_empty_buffer_still_marks_dirty() {
    let mut todo = TodoList::new();
    let dirty = todo.handle_key(key(Key::Backspace));
    assert!(dirty);
    assert_eq!(todo.input_buffer().as_str(), "");
}

#[test]
fn backspace_removes_exactly_the_last_character() {
    let mut todo = TodoList::new();
    type_text(&mut todo, "abc");
    todo.handle_key(key(Key::Backspace));
    assert_eq!(todo.input_buffer().as_str(), "ab");
}

#[test]
fn focus_input_sets_focus_and_keeps_state() {
    let mut todo = TodoList::new();
    type_text(&mut todo, "a");
    todo.focus_input();
    assert!(todo.is_focused());
    assert_eq!(todo.input_buffer().as_str(), "a");
    assert_eq!(todo.item_count(), 0);
}

#[test]
fn render_placeholder_when_empty_and_unfocused() {
    let todo = TodoList::new();
    let screen = todo.render();
    assert_eq!(screen.header.as_str(), "Todo List");
    assert_eq!(screen.input_text.as_str(), "Type and press Enter...");
    assert_eq!(screen.input_color, color::GRAY);
    assert_eq!(screen.input_border_color, color::BLUE);
}

#[test]
fn render_caret_while_focused() {
    let mut todo = TodoList::new();
    todo.focus_input();
    assert_eq!(todo.render().input_text.as_str(), "|");
    type_text(&mut todo, "ab");
    let screen = todo.render();
    assert_eq!(screen.input_text.as_str(), "ab|");
    assert_eq!(screen.input_color, color::WHITE);
    // the caret is a rendering affordance only, never stored
    assert_eq!(todo.input_buffer().as_str(), "ab");
}

#[test]
fn render_buffer_without_caret_when_unfocused() {
    let mut todo = TodoList::new();
    type_text(&mut todo, "a");
    let screen = todo.render();
    assert_eq!(screen.input_text.as_str(), "a");
    assert_eq!(screen.input_color, color::WHITE);
}

#[test]
fn empty_state_message_iff_no_items() {
    let mut todo = TodoList::new();
    let message = todo.render().empty_message;
    assert_eq!(
        message.as_deref(),
        Some("No todos yet. Type something and press Enter!")
    );
    type_text(&mut todo, "x");
    todo.handle_key(key(Key::Enter));
    assert!(todo.render().empty_message.is_none());
    todo.delete_item(0);
    assert!(todo.render().empty_message.is_some());
}

#[test]
fn rows_carry_their_render_time_indices() {
    let mut todo = TodoList::new();
    for text in ["x", "y", "z"] {
        type_text(&mut todo, text);
        todo.handle_key(key(Key::Enter));
    }
    let screen = todo.render();
    assert_eq!(screen.rows.len(), 3);
    for (i, row) in screen.rows.iter().enumerate() {
        assert_eq!(row.delete_index, i);
        assert_eq!(row.delete_label.as_str(), "Delete");
        assert_eq!(row.delete_color, color::RED);
    }
    assert_eq!(screen.rows[0].text.as_str(), "x");
    assert_eq!(screen.rows[1].text.as_str(), "y");
    assert_eq!(screen.rows[2].text.as_str(), "z");
    // acting on a rendered row's binding deletes that row's item
    todo.delete_item(screen.rows[1].delete_index);
    assert_eq!(todo.item_at(0).as_str(), "x");
    assert_eq!(todo.item_at(1).as_str(), "z");
}
