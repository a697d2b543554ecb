use uart_session::key::Key;
use uart_session::selectable_list::{SelectableList, SelectableListState};
use uart_session::text_input::TextInputState;

fn typed(s: &str) -> TextInputState {
    let mut e = TextInputState::new();
    for ch in s.chars() {
        e.handle_key(Key::Char(ch));
    }
    e
}

#[test]
fn insert_multibyte_at_cursor() {
    let mut e = typed("aé");
    e.handle_key(Key::Left);
    e.handle_key(Key::Char('中'));
    assert_eq!(e.value(), "a中é");
    assert_eq!(e.visual_cursor(), 2);
}

#[test]
fn backspace_removes_whole_codepoint() {
    let mut e = typed("x中y");
    e.handle_key(Key::Left);
    e.handle_key(Key::Backspace);
    assert_eq!(e.value(), "xy");
    assert_eq!(e.visual_cursor(), 1);
}

#[test]
fn backspace_at_start_does_nothing() {
    let mut e = typed("ab");
    e.handle_key(Key::Home);
    e.handle_key(Key::Backspace);
    assert_eq!(e.value(), "ab");
    assert_eq!(e.visual_cursor(), 0);
}

#[test]
fn delete_forward_keeps_cursor() {
    let mut e = typed("aéb");
    e.handle_key(Key::Home);
    e.handle_key(Key::Right);
    e.handle_key(Key::Delete);
    assert_eq!(e.value(), "ab");
    assert_eq!(e.visual_cursor(), 1);
    e.handle_key(Key::End);
    e.handle_key(Key::Delete);
    assert_eq!(e.value(), "ab");
    assert_eq!(e.visual_cursor(), 2);
}

#[test]
fn cursor_moves_are_clamped() {
    let mut e = typed("ab");
    e.handle_key(Key::Right);
    assert_eq!(e.visual_cursor(), 2);
    e.handle_key(Key::Left);
    e.handle_key(Key::Left);
    e.handle_key(Key::Left);
    assert_eq!(e.visual_cursor(), 0);
    e.handle_key(Key::End);
    assert_eq!(e.visual_cursor(), 2);
}

#[test]
fn cursor_stays_in_range_over_mixed_edits() {
    let mut e = TextInputState::new();
    let keys = [
        Key::Char('é'),
        Key::Left,
        Key::Left,
        Key::Delete,
        Key::Delete,
        Key::Char('z'),
        Key::Right,
        Key::Right,
        Key::Backspace,
        Key::Backspace,
        Key::Char('q'),
    ];
    for k in keys {
        e.handle_key(k);
        assert!(e.visual_cursor() <= e.value().chars().count());
    }
    assert_eq!(e.value(), "q");
}

#[test]
fn submit_returns_text_and_clears() {
    let mut e = typed("o pen");
    assert_eq!(e.handle_key(Key::Enter), "o pen");
    assert_eq!(e.value(), "");
    assert_eq!(e.visual_cursor(), 0);
}

#[test]
fn submit_on_empty_returns_empty() {
    let mut e = TextInputState::new();
    assert_eq!(e.submit(), "");
    assert_eq!(e.submit(), "");
    assert_eq!(e.visual_cursor(), 0);
}

#[test]
fn cancel_keeps_text_and_cursor() {
    let mut e = typed("abc");
    e.handle_key(Key::Left);
    assert_eq!(e.handle_key(Key::Esc), "");
    assert_eq!(e.cancel(), "");
    assert_eq!(e.value(), "abc");
    assert_eq!(e.visual_cursor(), 2);
}

#[test]
fn other_keys_change_nothing() {
    let mut e = typed("ab");
    assert_eq!(e.handle_key(Key::Up), "");
    assert_eq!(e.handle_key(Key::Other), "");
    assert_eq!(e.value(), "ab");
    assert_eq!(e.visual_cursor(), 2);
}

#[test]
fn set_value_puts_cursor_at_end() {
    let mut e = TextInputState::new();
    e.set_value("héllo".to_string());
    assert_eq!(e.visual_cursor(), 5);
}

fn list(items: &[&str]) -> SelectableListState {
    SelectableListState::new(items.iter().map(|s| s.to_string()).collect())
}

#[test]
fn new_list_selects_first_or_nothing() {
    assert_eq!(list(&["a", "b"]).selected(), Some(0));
    assert_eq!(list(&[]).selected(), None);
    assert_eq!(list(&[]).selected_item(), None);
}

#[test]
fn next_and_previous_wrap() {
    let mut l = list(&["a", "b", "c"]);
    l.previous();
    assert_eq!(l.selected(), Some(2));
    assert_eq!(l.selected_item(), Some("c"));
    l.next();
    assert_eq!(l.selected(), Some(0));
}

#[test]
fn full_cycle_returns_to_start() {
    let mut l = list(&["a", "b", "c", "d"]);
    l.next();
    for _ in 0..4 {
        l.next();
    }
    assert_eq!(l.selected(), Some(1));
    l.next();
    l.previous();
    assert_eq!(l.selected(), Some(1));
}

#[test]
fn empty_list_steps_do_nothing() {
    let mut l = list(&[]);
    l.next();
    l.previous();
    assert_eq!(l.selected(), None);
}

#[test]
fn refresh_keeps_out_of_range_selection() {
    let mut l = list(&["a", "b", "c"]);
    l.previous();
    l.update_items(vec!["x".to_string()]);
    assert_eq!(l.selected(), Some(2));
    assert_eq!(l.selected_item(), None);
    l.next();
    assert_eq!(l.selected(), Some(0));
    assert_eq!(l.items().len(), 1);
}

#[test]
fn refresh_from_empty_selects_on_next_step() {
    let mut l = list(&[]);
    l.update_items(vec!["x".to_string(), "y".to_string()]);
    assert_eq!(l.selected(), None);
    l.next();
    assert_eq!(l.selected(), Some(1));
}

#[test]
fn list_widget_keeps_its_name() {
    assert_eq!(SelectableList::new("Port".to_string()).name(), "Port");
}
