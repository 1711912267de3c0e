use menfis::buffer::Buffer;

#[test]
fn insert_and_backspace_roundtrip() {
    let mut buffer = Buffer::new("");
    buffer.insert_char('あ');
    buffer.insert_char('b');
    assert_eq!(buffer.text(), "あb");
    buffer.backspace();
    assert_eq!(buffer.text(), "あ");
    buffer.backspace();
    assert_eq!(buffer.text(), "");
    // Backspace on an empty buffer does nothing.
    buffer.backspace();
    assert_eq!(buffer.text(), "");
}

#[test]
fn delete_forward_and_move() {
    let mut buffer = Buffer::new("abc");
    buffer.move_left();
    buffer.move_left();
    buffer.move_left();
    assert_eq!(buffer.cursor_line_col(), (0, 0));
    buffer.delete_forward();
    assert_eq!(buffer.text(), "bc");
    buffer.move_right();
    buffer.move_right();
    buffer.delete_forward(); // does nothing at the end
    assert_eq!(buffer.text(), "bc");
}

#[test]
fn enter_creates_new_line_and_tracks_line_col() {
    let mut buffer = Buffer::new("ab");
    buffer.insert_char('\n');
    buffer.insert_char('c');
    assert_eq!(buffer.text(), "ab\nc");
    assert_eq!(buffer.cursor_line_col(), (1, 1));
}

#[test]
fn move_up_down_clamps_column_to_shorter_line() {
    let mut buffer = Buffer::new("abcdef\nxy");
    // The cursor is at the end, after "xy" on the second line: column 2.
    assert_eq!(buffer.cursor_line_col(), (1, 2));
    buffer.move_up();
    // The first line has six chars, so the column stays 2.
    assert_eq!(buffer.cursor_line_col(), (0, 2));
    buffer.move_left();
    buffer.move_left();
    assert_eq!(buffer.cursor_line_col(), (0, 0));
    buffer.move_down();
    // Column 0 fits on the two-char second line as it is.
    assert_eq!(buffer.cursor_line_col(), (1, 0));
}

#[test]
fn cursor_byte_col_accounts_for_multibyte_chars() {
    let mut buffer = Buffer::new("あ");
    // "あ" is three bytes in UTF-8; the cursor is right after it (char offset 1).
    assert_eq!(buffer.cursor_byte_col(), (0, 3));
    buffer.move_left();
    assert_eq!(buffer.cursor_byte_col(), (0, 0));
}

#[test]
fn new_buffer_puts_cursor_at_end_and_is_dirty() {
    let mut buffer = Buffer::new("héllo\nwörld");
    assert_eq!(buffer.cursor_line_col(), (1, 5));
    assert!(buffer.take_dirty());
    assert!(!buffer.take_dirty());
}

#[test]
fn moves_and_edits_set_the_dirty_flag_only_when_they_change_something() {
    let mut buffer = Buffer::new("ab");
    assert!(buffer.take_dirty());
    buffer.move_right(); // already at the end
    assert!(!buffer.take_dirty());
    buffer.delete_forward(); // nothing after the cursor
    assert!(!buffer.take_dirty());
    buffer.move_down(); // only one line
    assert!(!buffer.take_dirty());
    buffer.move_up(); // first line
    assert!(!buffer.take_dirty());
    buffer.move_left();
    assert!(buffer.take_dirty());
    buffer.backspace();
    assert!(buffer.take_dirty());
    assert_eq!(buffer.text(), "b");
    buffer.backspace(); // at the start
    assert!(!buffer.take_dirty());
}

#[test]
fn backspace_after_insert_restores_text_and_cursor() {
    let mut buffer = Buffer::new("hello\nworld");
    buffer.move_up();
    let before = buffer.cursor_line_col();
    buffer.insert_char('!');
    buffer.backspace();
    assert_eq!(buffer.text(), "hello\nworld");
    assert_eq!(buffer.cursor_line_col(), before);
}

#[test]
fn enter_in_the_middle_of_a_line_splits_it() {
    let mut buffer = Buffer::new("abcd");
    buffer.move_left();
    buffer.move_left();
    buffer.insert_char('\n');
    assert_eq!(buffer.text(), "ab\ncd");
    assert_eq!(buffer.cursor_line_col(), (1, 0));
}

#[test]
fn move_up_clamps_to_line_end_without_lf() {
    let mut buffer = Buffer::new("ab\nwxyz");
    assert_eq!(buffer.cursor_line_col(), (1, 4));
    buffer.move_up();
    assert_eq!(buffer.cursor_line_col(), (0, 2));
    buffer.move_down();
    assert_eq!(buffer.cursor_line_col(), (1, 2));
}

#[test]
fn crlf_counts_as_one_line_break() {
    let mut buffer = Buffer::new("ab\r\ncd");
    assert_eq!(buffer.cursor_line_col(), (1, 2));
    buffer.move_up();
    // The first line's CR stays in its length; only the LF is left out.
    assert_eq!(buffer.cursor_line_col(), (0, 2));
}

#[test]
fn other_unicode_line_breaks_start_lines() {
    let buffer = Buffer::new("a\u{2028}b\rc");
    assert_eq!(buffer.cursor_line_col(), (2, 1));
}

#[test]
fn cursor_byte_col_counts_bytes_before_the_cursor_on_its_line() {
    let mut buffer = Buffer::new("x\nあい😀");
    assert_eq!(buffer.cursor_byte_col(), (1, 10));
    buffer.move_left();
    assert_eq!(buffer.cursor_byte_col(), (1, 6));
    assert_eq!(buffer.cursor_line_col(), (1, 2));
}

#[test]
fn move_left_then_right_returns_to_the_same_place() {
    let mut buffer = Buffer::new("ab\ncd");
    buffer.move_left();
    let before = buffer.cursor_line_col();
    buffer.move_left();
    buffer.move_right();
    assert_eq!(buffer.cursor_line_col(), before);
    buffer.move_right();
    buffer.move_left();
    assert_eq!(buffer.cursor_line_col(), before);
}

#[test]
fn move_up_onto_a_line_ending_in_a_lone_cr_can_reach_the_next_line() {
    // The line above ends with a lone CR, which is kept in its length; a
    // long enough column puts the cursor after that CR.
    let mut buffer = Buffer::new("a\rbcd");
    assert_eq!(buffer.cursor_line_col(), (1, 3));
    buffer.move_up();
    assert_eq!(buffer.cursor_line_col(), (1, 0));
}

#[test]
fn undo_takes_back_a_typing_run_and_redo_brings_it_back() {
    let mut buffer = Buffer::new("ab");
    buffer.insert_char('c');
    buffer.insert_char('d');
    assert_eq!(buffer.text(), "abcd");
    buffer.undo();
    assert_eq!(buffer.text(), "ab");
    assert_eq!(buffer.cursor_line_col(), (0, 2));
    buffer.redo();
    assert_eq!(buffer.text(), "abcd");
    assert_eq!(buffer.cursor_line_col(), (0, 4));
}

#[test]
fn a_cursor_move_splits_undo_steps() {
    let mut buffer = Buffer::new("");
    buffer.insert_char('a');
    buffer.move_left();
    buffer.insert_char('b');
    assert_eq!(buffer.text(), "ba");
    buffer.undo();
    assert_eq!(buffer.text(), "a");
    buffer.undo();
    assert_eq!(buffer.text(), "");
    buffer.undo(); // nothing left
    assert_eq!(buffer.text(), "");
}

#[test]
fn deletes_after_inserts_are_their_own_step() {
    let mut buffer = Buffer::new("");
    buffer.insert_char('a');
    buffer.insert_char('b');
    buffer.backspace();
    assert_eq!(buffer.text(), "a");
    buffer.undo();
    assert_eq!(buffer.text(), "ab");
    buffer.undo();
    assert_eq!(buffer.text(), "");
}

#[test]
fn undo_raises_the_changed_flag_and_a_new_edit_drops_redo() {
    let mut buffer = Buffer::new("x");
    buffer.insert_char('y');
    assert!(buffer.take_dirty());
    buffer.undo();
    assert!(buffer.take_dirty());
    buffer.insert_char('z');
    buffer.redo(); // the redo step is gone
    assert_eq!(buffer.text(), "xz");
    assert_eq!(buffer.len_chars(), 2);
}
