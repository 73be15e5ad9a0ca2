use netman::ui::{truncate_display, Key, TextInput};

#[test]
fn insert_and_backspace() {
    let mut input = TextInput::new();
    input.handle_key(Key::Char('a'), false);
    input.handle_key(Key::Char('b'), false);
    assert_eq!(input.text(), "ab");
    input.handle_key(Key::Backspace, false);
    assert_eq!(input.text(), "a");
}

#[test]
fn masked_display() {
    let mut input = TextInput::new();
    input.insert_str("secret");
    assert_eq!(input.display_text(false), "••••••");
    assert_eq!(input.display_text(true), "secret");
}

#[test]
fn insert_str_at_cursor() {
    let mut input = TextInput::new();
    input.insert_str("hi");
    input.handle_key(Key::Home, false);
    input.insert_str("X");
    assert_eq!(input.text(), "Xhi");
}

// ── further cases ────────────────────────────────────────────────────────────

#[test]
fn cursor_counts_bytes_and_chars() {
    let mut input = TextInput::new();
    input.insert_str("né€");
    assert_eq!(input.cursor_char_index(), 3);
    assert_eq!(input.cursor(), 1 + 2 + 3);
    input.handle_key(Key::Left, false);
    assert_eq!(input.cursor(), 3);
    input.handle_key(Key::Backspace, false);
    assert_eq!(input.text(), "n€");
    assert_eq!(input.cursor(), 1);
}

#[test]
fn delete_and_edges() {
    let mut input = TextInput::new();
    assert!(input.is_empty());
    assert!(input.handle_key(Key::Backspace, false));
    assert!(input.handle_key(Key::Delete, false));
    input.insert_str("abc");
    input.handle_key(Key::Home, false);
    input.handle_key(Key::Delete, false);
    assert_eq!(input.text(), "bc");
    assert_eq!(input.cursor(), 0);
    input.handle_key(Key::End, false);
    assert_eq!(input.cursor(), 2);
    input.handle_key(Key::Right, false);
    assert_eq!(input.cursor(), 2);
    input.handle_key(Key::Delete, false);
    assert_eq!(input.text(), "bc");
}

#[test]
fn control_and_unknown_keys_are_not_consumed() {
    let mut input = TextInput::new();
    assert!(!input.handle_key(Key::Char('v'), true));
    assert!(!input.handle_key(Key::Enter, false));
    assert!(!input.handle_key(Key::Tab, false));
    assert!(input.is_empty());
}

#[test]
fn typing_then_backspace_restores_text_and_cursor() {
    let mut input = TextInput::new();
    input.insert_str("hello");
    input.handle_key(Key::Left, false);
    input.handle_key(Key::Left, false);
    let before = input.clone();
    input.handle_key(Key::Char('X'), false);
    assert_eq!(input.text(), "helXlo");
    input.handle_key(Key::Backspace, false);
    assert_eq!(input.text(), before.text());
    assert_eq!(input.cursor(), before.cursor());
}

#[test]
fn field_layout_cuts_text_and_cursor() {
    let mut input = TextInput::new();
    input.insert_str("abcdefghij");
    let (shown, col) = input.field_layout(true, 10);
    assert_eq!(shown, "abcd");
    assert_eq!(col, 3);
    let (masked, _) = input.field_layout(false, 100);
    assert_eq!(masked.chars().count(), 10);
    let (empty, col) = input.field_layout(true, 3);
    assert_eq!(empty, "");
    assert_eq!(col, 0);
}

#[test]
fn truncate_display_keeps_prefix() {
    assert_eq!(truncate_display("héllo", 2), "hé");
    assert_eq!(truncate_display("hi", 5), "hi");
    assert_eq!(truncate_display("hi", 0), "");
}
