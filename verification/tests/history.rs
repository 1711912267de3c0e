use menfis::buffer::history::{EditKind, History};
use ropey::Rope;

fn restored(r: Option<(Rope, usize, Option<usize>)>) -> Option<(String, usize, Option<usize>)> {
    r.map(|(rope, cursor, anchor)| (rope.to_string(), cursor, anchor))
}

#[test]
fn undo_on_empty_history_gives_nothing() {
    let mut history = History::new();
    let rope = Rope::from_str("abc");
    assert!(history.undo(&rope, 3, None).is_none());
    assert!(history.redo(&rope, 3, None).is_none());
}

#[test]
fn undo_returns_state_before_edit_and_redo_returns_state_after() {
    let mut history = History::new();
    let before = Rope::from_str("ab");
    history.checkpoint(EditKind::Other, &before, 2, None);
    let after = Rope::from_str("abc");
    let undone = restored(history.undo(&after, 3, Some(1)));
    assert_eq!(undone, Some(("ab".to_string(), 2, None)));
    let redone = restored(history.redo(&before, 2, None));
    assert_eq!(redone, Some(("abc".to_string(), 3, Some(1))));
    // Back on top of the undo stack again.
    let undone_again = restored(history.undo(&after, 3, Some(1)));
    assert_eq!(undone_again, Some(("ab".to_string(), 2, None)));
}

#[test]
fn consecutive_inserts_from_where_the_last_ended_are_one_step() {
    let mut history = History::new();
    history.checkpoint(EditKind::Insert, &Rope::from_str(""), 0, None);
    history.note_cursor_after_edit(1);
    history.checkpoint(EditKind::Insert, &Rope::from_str("a"), 1, None);
    history.note_cursor_after_edit(2);
    history.checkpoint(EditKind::Insert, &Rope::from_str("ab"), 2, None);
    history.note_cursor_after_edit(3);
    let current = Rope::from_str("abc");
    assert_eq!(restored(history.undo(&current, 3, None)), Some((String::new(), 0, None)));
    assert!(history.undo(&Rope::from_str(""), 0, None).is_none());
}

#[test]
fn a_cursor_jump_or_a_kind_change_opens_a_new_step() {
    let mut history = History::new();
    history.checkpoint(EditKind::Insert, &Rope::from_str(""), 0, None);
    history.note_cursor_after_edit(1);
    // The cursor moved to 0 before the next insert.
    history.checkpoint(EditKind::Insert, &Rope::from_str("a"), 0, None);
    history.note_cursor_after_edit(1);
    // A delete after inserts.
    history.checkpoint(EditKind::Delete, &Rope::from_str("ba"), 1, None);
    history.note_cursor_after_edit(0);
    let current = Rope::from_str("a");
    assert_eq!(restored(history.undo(&current, 0, None)), Some(("ba".to_string(), 1, None)));
    assert_eq!(restored(history.undo(&Rope::from_str("ba"), 1, None)), Some(("a".to_string(), 0, None)));
    assert_eq!(restored(history.undo(&Rope::from_str("a"), 0, None)), Some((String::new(), 0, None)));
}

#[test]
fn other_edits_never_coalesce() {
    let mut history = History::new();
    history.checkpoint(EditKind::Other, &Rope::from_str("x"), 1, None);
    history.note_cursor_after_edit(1);
    history.checkpoint(EditKind::Other, &Rope::from_str("y"), 1, None);
    assert_eq!(restored(history.undo(&Rope::from_str("z"), 1, None)), Some(("y".to_string(), 1, None)));
    assert_eq!(restored(history.undo(&Rope::from_str("y"), 1, None)), Some(("x".to_string(), 1, None)));
}

#[test]
fn a_new_step_drops_the_redo_steps() {
    let mut history = History::new();
    history.checkpoint(EditKind::Other, &Rope::from_str("a"), 1, None);
    assert!(history.undo(&Rope::from_str("ab"), 2, None).is_some());
    history.checkpoint(EditKind::Other, &Rope::from_str("a"), 1, None);
    assert!(history.redo(&Rope::from_str("ac"), 2, None).is_none());
}

#[test]
fn undo_ends_a_typing_run() {
    let mut history = History::new();
    history.checkpoint(EditKind::Insert, &Rope::from_str(""), 0, None);
    history.note_cursor_after_edit(1);
    assert!(history.undo(&Rope::from_str("a"), 1, None).is_some());
    // After an undo the next insert opens its own step even from the same cursor.
    history.checkpoint(EditKind::Insert, &Rope::from_str(""), 1, None);
    assert_eq!(restored(history.undo(&Rope::from_str("b"), 1, None)), Some((String::new(), 1, None)));
}
