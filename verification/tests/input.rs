use menfis::buffer::Buffer;
use menfis::input::{
    file_shortcut, filter_controls, handle_key_event, insert_text, key_command, FileShortcut,
    KeyCommand, KeyEvent, LogicalKey, Modifiers, NamedKey,
};

fn mods(shift: bool, control: bool, super_key: bool) -> Modifiers {
    Modifiers { shift, control, super_key }
}

fn char_key(s: &str, text: Option<&str>) -> KeyEvent {
    KeyEvent {
        pressed: true,
        logical_key: LogicalKey::Character(s.chars().collect()),
        text: text.map(|t| t.chars().collect()),
    }
}

fn named(key: NamedKey) -> KeyEvent {
    KeyEvent { pressed: true, logical_key: LogicalKey::Named(key), text: None }
}

#[test]
fn shortcuts_with_control_or_command() {
    assert!(matches!(key_command(&char_key("c", None), mods(false, true, false)), KeyCommand::Copy));
    assert!(matches!(key_command(&char_key("X", None), mods(false, true, false)), KeyCommand::Cut));
    assert!(matches!(key_command(&char_key("v", None), mods(false, false, true)), KeyCommand::Paste));
    assert!(matches!(key_command(&char_key("a", None), mods(false, true, false)), KeyCommand::SelectAll));
    assert!(matches!(key_command(&char_key("z", None), mods(false, true, false)), KeyCommand::Undo));
    assert!(matches!(key_command(&char_key("Z", None), mods(true, true, false)), KeyCommand::Redo));
    assert!(matches!(key_command(&char_key("y", None), mods(false, true, false)), KeyCommand::Redo));
}

#[test]
fn released_keys_do_nothing() {
    let mut event = named(NamedKey::Backspace);
    event.pressed = false;
    assert!(matches!(key_command(&event, mods(false, false, false)), KeyCommand::Ignore));
}

#[test]
fn named_keys_edit_and_move() {
    let m = mods(false, false, false);
    assert!(matches!(key_command(&named(NamedKey::Backspace), m), KeyCommand::Backspace));
    assert!(matches!(key_command(&named(NamedKey::Delete), m), KeyCommand::DeleteForward));
    assert!(matches!(key_command(&named(NamedKey::Enter), m), KeyCommand::InsertNewline));
    assert!(matches!(
        key_command(&named(NamedKey::ArrowLeft), mods(true, false, false)),
        KeyCommand::MoveLeft { extend: true }
    ));
    assert!(matches!(key_command(&named(NamedKey::ArrowDown), m), KeyCommand::MoveDown { extend: false }));
}

#[test]
fn plain_keys_type_their_text_without_control_chars() {
    match key_command(&char_key("a", Some("a\u{1}b")), mods(false, false, false)) {
        KeyCommand::InsertText(chars) => assert_eq!(chars, vec!['a', 'b']),
        other => panic!("unexpected {:?}", other),
    }
    // Control with a letter that is no shortcut types its text too.
    match key_command(&char_key("b", Some("\u{2}")), mods(false, true, false)) {
        KeyCommand::InsertText(chars) => assert!(chars.is_empty()),
        other => panic!("unexpected {:?}", other),
    }
}

#[test]
fn filter_controls_keeps_printable_chars() {
    let text: Vec<char> = "a\tb\u{7f}\u{9f}\u{a0}c\n".chars().collect();
    assert_eq!(filter_controls(&text), vec!['a', 'b', '\u{a0}', 'c']);
}

#[test]
fn handle_key_event_edits_the_buffer() {
    let mut buffer = Buffer::new("ab");
    handle_key_event(&mut buffer, &named(NamedKey::Enter), mods(false, false, false));
    handle_key_event(&mut buffer, &char_key("c", Some("c")), mods(false, false, false));
    assert_eq!(buffer.text(), "ab\nc");
    handle_key_event(&mut buffer, &named(NamedKey::ArrowUp), mods(false, false, false));
    assert_eq!(buffer.cursor_line_col(), (0, 1));
    handle_key_event(&mut buffer, &named(NamedKey::Backspace), mods(false, false, false));
    assert_eq!(buffer.text(), "b\nc");
    let command = handle_key_event(&mut buffer, &char_key("v", None), mods(false, true, false));
    assert!(matches!(command, KeyCommand::Paste));
    assert_eq!(buffer.text(), "b\nc");
}

#[test]
fn insert_text_types_all_chars() {
    let mut buffer = Buffer::new("ad");
    buffer.move_left();
    insert_text(&mut buffer, &"bc".chars().collect());
    assert_eq!(buffer.text(), "abcd");
    assert_eq!(buffer.cursor_line_col(), (0, 3));
}

#[test]
fn file_shortcuts() {
    let ctrl = mods(false, true, false);
    assert_eq!(file_shortcut(&char_key("o", None), ctrl, false), FileShortcut::OpenDialog);
    assert_eq!(file_shortcut(&char_key("s", None), ctrl, true), FileShortcut::SaveToCurrentPath);
    assert_eq!(file_shortcut(&char_key("s", None), ctrl, false), FileShortcut::SaveDialog);
    assert_eq!(file_shortcut(&char_key("S", None), mods(true, true, false), true), FileShortcut::SaveDialog);
    assert_eq!(file_shortcut(&char_key("s", None), mods(false, false, false), true), FileShortcut::NotHandled);
    assert_eq!(file_shortcut(&char_key("c", None), ctrl, true), FileShortcut::NotHandled);
    assert_eq!(file_shortcut(&named(NamedKey::Enter), ctrl, true), FileShortcut::NotHandled);
}

#[test]
fn undo_and_redo_shortcuts_act_on_the_buffer() {
    let mut buffer = Buffer::new("");
    handle_key_event(&mut buffer, &char_key("a", Some("a")), mods(false, false, false));
    handle_key_event(&mut buffer, &char_key("b", Some("b")), mods(false, false, false));
    assert_eq!(buffer.text(), "ab");
    let command = handle_key_event(&mut buffer, &char_key("z", None), mods(false, true, false));
    assert!(matches!(command, KeyCommand::Undo));
    assert_eq!(buffer.text(), "");
    handle_key_event(&mut buffer, &char_key("y", None), mods(false, true, false));
    assert_eq!(buffer.text(), "ab");
}
