//! What holds of the buffer's operations taken together.
use vstd::prelude::*;
use crate::buffer::{BufferState, min_int, history_after_edit};
use crate::buffer::history::{EditKind, HistoryState};
use crate::lines::{
    breaks_before, ends_line_break, ends_with_other_break, is_line_break_char, is_line_start,
    len_without_lf, line_chars, line_count, line_start, lemma_is_line_start_is_line_start_of, lemma_line_of_index, lemma_line_start,
    lemma_line_start_ordered, lemma_positions_on_line, lemma_breaks_before_monotonic,
};

verus! {

/// Every editing and moving operation keeps the cursor within the text.
pub proof fn law_operations_keep_cursor_in_text(s: BufferState, c: char)
    requires
        s.valid(),
    ensures
        s.after_insert_char(c).valid(),
        s.after_backspace().valid(),
        s.after_delete_forward().valid(),
        s.after_move_left().valid(),
        s.after_move_right().valid(),
        s.after_move_up().valid(),
        s.after_move_down().valid(),
{
    lemma_line_of_index(s.text, s.cursor);
    let l = s.line();
    if l > 0 {
        lemma_line_start_ordered(s.text, l - 1);
        lemma_line_start(s.text, l - 1);
    }
    if l + 1 < line_count(s.text) {
        lemma_line_start_ordered(s.text, l + 1);
        lemma_line_start(s.text, l + 1);
    }
}

/// Backspace right after typing a char gives back the text and the cursor
/// as they were.
pub proof fn law_backspace_undoes_insert_char(s: BufferState, c: char)
    requires
        s.valid(),
    ensures
        s.after_insert_char(c).after_backspace() == (BufferState { dirty: true, ..s }),
{
    let t = s.after_insert_char(c);
    assert(t.text.take(s.cursor) + t.text.skip(s.cursor + 1) =~= s.text);
}

/// Moving left and then right, from anywhere but the start, brings the cursor
/// back; so does moving right and then left, from anywhere but the end.
pub proof fn law_move_left_and_right_are_inverse(s: BufferState)
    requires
        s.valid(),
    ensures
        s.cursor > 0 ==> s.after_move_left().after_move_right() == (BufferState {
            dirty: true,
            ..s
        }),
        s.cursor < s.text.len() ==> s.after_move_right().after_move_left() == (BufferState {
            dirty: true,
            ..s
        }),
{
}

/// Two texts whose break ends agree before `i` have as many breaks before `i`.
proof fn lemma_breaks_before_same(s1: Seq<char>, s2: Seq<char>, i: int)
    requires
        forall|j: int| 0 <= j < i ==> ends_line_break(s1, j) == ends_line_break(s2, j),
    ensures
        breaks_before(s1, i) == breaks_before(s2, i),
    decreases i,
{
    if i > 0 {
        lemma_breaks_before_same(s1, s2, i - 1);
    }
}

/// Typing a line feed puts the cursor at the start of a new line, the one
/// after the line it was on; except right after a lone CR, which the line
/// feed joins into one CR LF break.
pub proof fn law_enter_starts_next_line(s: BufferState)
    requires
        s.valid(),
        !(s.cursor > 0 && s.text[s.cursor - 1] == '\r' && !(s.cursor < s.text.len()
            && s.text[s.cursor] == '\n')),
    ensures
        s.after_insert_char('\n').line() == s.line() + 1,
        s.after_insert_char('\n').col() == 0,
{
    let t = s.after_insert_char('\n');
    let k = s.cursor;
    assert forall|j: int| 0 <= j < k implies ends_line_break(s.text, j) == ends_line_break(
        t.text,
        j,
    ) by {
        assert(t.text[j] == s.text[j]);
        if j + 1 < k {
            assert(t.text[j + 1] == s.text[j + 1]);
        }
    }
    lemma_breaks_before_same(s.text, t.text, k);
    assert(ends_line_break(t.text, k));
    assert(breaks_before(t.text, k + 1) == breaks_before(t.text, k) + 1);
    assert(is_line_start(t.text, k + 1));
    lemma_is_line_start_is_line_start_of(t.text, k + 1);
}

/// Where the cursor lands on line `l` by `vertical_target`: on that line, at
/// the kept column or the line's end without its LF; unless the line ends
/// with a break other than LF.
proof fn lemma_vertical_target(s: BufferState, l: int)
    requires
        s.valid(),
        0 <= l < line_count(s.text),
        !ends_with_other_break(line_chars(s.text, l)),
    ensures
        breaks_before(s.text, s.vertical_target(l)) == l,
        s.vertical_target(l) - line_start(s.text, l) == min_int(
            s.col(),
            len_without_lf(line_chars(s.text, l)) as int,
        ),
{
    let t = s.text;
    lemma_line_of_index(t, s.cursor);
    lemma_line_start_ordered(t, l);
    lemma_line_start(t, l);
    let p = s.vertical_target(l);
    let line = line_chars(t, l);
    if l + 1 < line_count(t) {
        lemma_line_start(t, l + 1);
        let e = line_start(t, l + 1);
        assert(ends_line_break(t, e - 1));
        assert(line.last() == t[e - 1]);
        assert(is_line_break_char(line.last()));
        assert(line.last() == '\n');
        assert(p < e);
    }
    lemma_positions_on_line(t, l, p);
}

/// Moving up from any line but the first lands on the line above, at the
/// same column where that line is long enough and at its end otherwise;
/// unless that line ends with a break other than LF.
pub proof fn law_move_up_lands_on_line_above(s: BufferState)
    requires
        s.valid(),
        s.line() > 0,
        !ends_with_other_break(line_chars(s.text, s.line() - 1)),
    ensures
        s.after_move_up().line() == s.line() - 1,
        s.after_move_up().col() == min_int(
            s.col(),
            len_without_lf(line_chars(s.text, s.line() - 1)) as int,
        ),
{
    lemma_line_of_index(s.text, s.cursor);
    lemma_vertical_target(s, s.line() - 1);
}

/// Moving down from any line but the last lands on the line below, at the
/// same column where that line is long enough and at its end otherwise;
/// unless that line ends with a break other than LF.
pub proof fn law_move_down_lands_on_line_below(s: BufferState)
    requires
        s.valid(),
        s.line() + 1 < line_count(s.text),
        !ends_with_other_break(line_chars(s.text, s.line() + 1)),
    ensures
        s.after_move_down().line() == s.line() + 1,
        s.after_move_down().col() == min_int(
            s.col(),
            len_without_lf(line_chars(s.text, s.line() + 1)) as int,
        ),
{
    lemma_vertical_target(s, s.line() + 1);
}

/// The cursor's line exists, and its column lies within that line.
pub proof fn law_line_col_within_text(s: BufferState)
    requires
        s.valid(),
    ensures
        0 <= s.line() < line_count(s.text),
        0 <= s.col() <= line_chars(s.text, s.line()).len(),
{
    lemma_line_of_index(s.text, s.cursor);
    lemma_line_start_ordered(s.text, s.line());
    lemma_line_start(s.text, s.line());
}


/// The changed flag is raised exactly when an operation changes the text or
/// the cursor; an operation that changes neither leaves it as it was.
pub open spec fn flags_change(before: BufferState, after: BufferState) -> bool {
    if after.text != before.text || after.cursor != before.cursor {
        after.dirty
    } else {
        after.dirty == before.dirty
    }
}

/// Every operation raises the changed flag exactly when it changes the text
/// or moves the cursor, so `take_dirty` tells whether anything changed since
/// it was last called.
pub proof fn law_changed_flag_tracks_changes(s: BufferState, c: char)
    requires
        s.valid(),
    ensures
        flags_change(s, s.after_insert_char(c)),
        flags_change(s, s.after_backspace()),
        flags_change(s, s.after_delete_forward()),
        flags_change(s, s.after_move_left()),
        flags_change(s, s.after_move_right()),
        flags_change(s, s.after_move_up()),
        flags_change(s, s.after_move_down()),
{
    assert(s.after_insert_char(c).text.len() == s.text.len() + 1);
    lemma_line_of_index(s.text, s.cursor);
    let l = s.line();
    if l > 0 {
        lemma_line_start_ordered(s.text, l - 1);
        lemma_line_start(s.text, l - 1);
        lemma_line_start(s.text, l);
        assert(s.after_move_up().cursor < s.cursor);
    }
    if l + 1 < line_count(s.text) {
        lemma_line_start_ordered(s.text, l + 1);
        lemma_line_start(s.text, l + 1);
        assert(s.after_move_down().cursor > s.cursor);
    }
}


/// A buffer operation, as a value, to speak of runs of them.
pub enum BufferOp {
    InsertChar(char),
    Backspace,
    DeleteForward,
    MoveLeft,
    MoveRight,
    MoveUp,
    MoveDown,
}

/// The buffer after one operation.
pub open spec fn after_op(s: BufferState, op: BufferOp) -> BufferState {
    match op {
        BufferOp::InsertChar(c) => s.after_insert_char(c),
        BufferOp::Backspace => s.after_backspace(),
        BufferOp::DeleteForward => s.after_delete_forward(),
        BufferOp::MoveLeft => s.after_move_left(),
        BufferOp::MoveRight => s.after_move_right(),
        BufferOp::MoveUp => s.after_move_up(),
        BufferOp::MoveDown => s.after_move_down(),
    }
}

/// The buffer after a run of operations, in order.
pub open spec fn after_ops(s: BufferState, ops: Seq<BufferOp>) -> BufferState
    decreases ops.len(),
{
    if ops.len() == 0 {
        s
    } else {
        after_op(after_ops(s, ops.drop_last()), ops.last())
    }
}

/// Operation `i` of the run changed the text or moved the cursor.
pub open spec fn op_changed(s: BufferState, ops: Seq<BufferOp>, i: int) -> bool {
    let before = after_ops(s, ops.take(i));
    let after = after_op(before, ops[i]);
    after.text != before.text || after.cursor != before.cursor
}

/// After any run of operations the flag is raised exactly when it was raised
/// before the run or some operation of the run changed the text or moved
/// the cursor. With `take_dirty`, which gives the flag and lowers it, this is
/// the promise that `take_dirty` reports whether anything changed since its
/// last call (or since `new`, which raises the flag); so of two calls in a
/// row the second gives `false`.
pub proof fn law_take_dirty_reports_changes_since_last_take(s: BufferState, ops: Seq<BufferOp>)
    requires
        s.valid(),
    ensures
        after_ops(s, ops).valid(),
        after_ops(s, ops).dirty == (s.dirty || exists|i: int|
            0 <= i < ops.len() && #[trigger] op_changed(s, ops, i)),
    decreases ops.len(),
{
    if ops.len() > 0 {
        let n = ops.len() - 1;
        let prefix = ops.drop_last();
        law_take_dirty_reports_changes_since_last_take(s, prefix);
        let before = after_ops(s, prefix);
        let c = match ops.last() {
            BufferOp::InsertChar(c) => c,
            _ => ' ',
        };
        law_operations_keep_cursor_in_text(before, c);
        law_changed_flag_tracks_changes(before, c);
        assert(ops.take(n) =~= prefix);
        assert forall|i: int| 0 <= i < n implies op_changed(s, ops, i) == op_changed(
            s,
            prefix,
            i,
        ) by {
            assert(ops.take(i) =~= prefix.take(i));
            assert(ops[i] == prefix[i]);
        }
        if op_changed(s, ops, n) {
            assert(after_ops(s, ops).dirty);
        }
        if exists|i: int| 0 <= i < ops.len() && #[trigger] op_changed(s, ops, i) {
            let i = choose|i: int| 0 <= i < ops.len() && #[trigger] op_changed(s, ops, i);
            if i < n {
                assert(op_changed(s, prefix, i));
            }
        }
        if exists|i: int| 0 <= i < prefix.len() && #[trigger] op_changed(s, prefix, i) {
            let i = choose|i: int| 0 <= i < prefix.len() && #[trigger] op_changed(s, prefix, i);
            assert(op_changed(s, ops, i));
        }
    }
}


/// Undo right after an edit that opened a new undo step gives back the text
/// and the cursor from before the edit; redo right after that gives back the
/// text and the cursor from after it.
pub proof fn law_undo_and_redo_of_an_edit(
    before: BufferState,
    after: BufferState,
    h: HistoryState,
    kind: EditKind,
)
    requires
        before.valid(),
        before.text.len() <= usize::MAX,
        after.valid(),
        after.text.len() <= usize::MAX,
        !h.coalesces(kind, before.cursor as usize),
    ensures
        after.restored(history_after_edit(h, kind, before, after).undo_target()) == (BufferState {
            dirty: true,
            ..before
        }),
        before.restored(
            history_after_edit(h, kind, before, after).after_undo(after.snapshot()).redo_target(),
        ) == (BufferState { dirty: true, ..after }),
{
}


/// Moving up never leaves the cursor on a later line, and on the first line
/// it changes nothing at all (cursor and changed flag included); moving down
/// never leaves it on an earlier line, and on the last line it changes
/// nothing. Neither move touches the text.
pub proof fn law_vertical_moves_go_the_right_way(s: BufferState)
    requires
        s.valid(),
    ensures
        s.after_move_up().text == s.text,
        s.after_move_down().text == s.text,
        s.after_move_up().line() <= s.line(),
        s.after_move_down().line() >= s.line(),
        s.line() == 0 ==> s.after_move_up() == s,
        s.line() + 1 == line_count(s.text) ==> s.after_move_down() == s,
        s.line() > 0 ==> s.after_move_up().cursor < s.cursor,
        s.line() + 1 < line_count(s.text) ==> s.after_move_down().cursor > s.cursor,
{
    law_changed_flag_tracks_changes(s, ' ');
    law_operations_keep_cursor_in_text(s, ' ');
    lemma_line_of_index(s.text, s.cursor);
    let l = s.line();
    if l > 0 {
        lemma_line_start_ordered(s.text, l - 1);
        lemma_line_start(s.text, l - 1);
        lemma_line_start(s.text, l);
        assert(s.after_move_up().cursor < s.cursor);
        lemma_breaks_before_monotonic(s.text, s.after_move_up().cursor, s.cursor);
    }
    if l + 1 < line_count(s.text) {
        lemma_line_start_ordered(s.text, l + 1);
        lemma_line_start(s.text, l + 1);
        assert(s.after_move_down().cursor > s.cursor);
        lemma_breaks_before_monotonic(s.text, s.cursor, s.after_move_down().cursor);
    }
}

/// Forward delete before the end of the text removes exactly the char at
/// the cursor: the text is one char shorter, the chars before the cursor
/// stay, the ones after it move back by one, and the cursor stays. At the
/// end of the text it changes nothing.
pub proof fn law_delete_forward_removes_char_at_cursor(s: BufferState)
    requires
        s.valid(),
    ensures
        s.cursor < s.text.len() ==> {
            let t = s.after_delete_forward();
            &&& t.text.len() + 1 == s.text.len()
            &&& t.cursor == s.cursor
            &&& t.dirty
            &&& forall|i: int| 0 <= i < s.cursor ==> t.text[i] == s.text[i]
            &&& forall|i: int| s.cursor <= i < t.text.len() ==> t.text[i] == s.text[i + 1]
        },
        s.cursor == s.text.len() ==> s.after_delete_forward() == s,
{
}

/// Typing a char and then deleting forward from just before it gives the
/// text back; so does deleting forward right after typing a char and moving
/// back over it.
pub proof fn law_delete_forward_undoes_insert_char(s: BufferState, c: char)
    requires
        s.valid(),
    ensures
        s.after_insert_char(c).after_move_left().after_delete_forward().text == s.text,
        s.after_insert_char(c).after_move_left().after_delete_forward().cursor == s.cursor,
{
    let t = s.after_insert_char(c);
    assert(t.text.take(s.cursor) + t.text.skip(s.cursor + 1) =~= s.text);
}

/// Backspace after the start of the text removes exactly the char before
/// the cursor, which moves back by one; at the start it changes nothing.
pub proof fn law_backspace_removes_char_before_cursor(s: BufferState)
    requires
        s.valid(),
    ensures
        s.cursor > 0 ==> {
            let t = s.after_backspace();
            &&& t.text.len() + 1 == s.text.len()
            &&& t.cursor + 1 == s.cursor
            &&& t.dirty
            &&& forall|i: int| 0 <= i < t.cursor ==> t.text[i] == s.text[i]
            &&& forall|i: int| t.cursor <= i < t.text.len() ==> t.text[i] == s.text[i + 1]
        },
        s.cursor == 0 ==> s.after_backspace() == s,
{
}

/// Typing a char puts it at the cursor and moves the cursor past it; the
/// chars before stay and the ones after move on by one.
pub proof fn law_insert_char_puts_char_at_cursor(s: BufferState, c: char)
    requires
        s.valid(),
    ensures
        s.after_insert_char(c).text.len() == s.text.len() + 1,
        s.after_insert_char(c).text[s.cursor] == c,
        s.after_insert_char(c).cursor == s.cursor + 1,
        forall|i: int| 0 <= i < s.cursor ==> s.after_insert_char(c).text[i] == s.text[i],
        forall|i: int|
            s.cursor <= i < s.text.len() ==> s.after_insert_char(c).text[i + 1] == s.text[i],
{
}

/// Left and right move the cursor by exactly one char where they can and
/// leave the text alone; at the start (left) or end (right) nothing changes.
pub proof fn law_horizontal_moves_step_one_char(s: BufferState)
    requires
        s.valid(),
    ensures
        s.after_move_left().text == s.text,
        s.after_move_right().text == s.text,
        s.cursor > 0 ==> s.after_move_left().cursor == s.cursor - 1,
        s.cursor == 0 ==> s.after_move_left() == s,
        s.cursor < s.text.len() ==> s.after_move_right().cursor == s.cursor + 1,
        s.cursor == s.text.len() ==> s.after_move_right() == s,
{
}


/// The column is the distance from the cursor back to the start of its
/// line: a line starts there, and no line break ends in between.
pub proof fn law_col_is_distance_to_line_start(s: BufferState)
    requires
        s.valid(),
    ensures
        0 <= s.col() <= s.cursor,
        is_line_start(s.text, s.cursor - s.col()),
        forall|j: int| s.cursor - s.col() <= j < s.cursor ==> !ends_line_break(s.text, j),
{
    lemma_line_of_index(s.text, s.cursor);
    let l = s.line();
    lemma_line_start(s.text, l);
    let ls = line_start(s.text, l);
    assert forall|j: int| ls <= j < s.cursor implies !ends_line_break(s.text, j) by {
        if ends_line_break(s.text, j) {
            lemma_breaks_before_monotonic(s.text, ls, j);
            lemma_breaks_before_monotonic(s.text, j + 1, s.cursor);
            assert(breaks_before(s.text, j + 1) == breaks_before(s.text, j) + 1);
        }
    }
}

proof fn lemma_utf8_length_bounds(t: Seq<char>)
    ensures
        t.len() <= vstd::utf8::encode_utf8(t).len() <= 4 * t.len(),
    decreases t.len(),
{
    if t.len() > 0 {
        lemma_utf8_length_bounds(t.drop_first());
        let e = vstd::utf8::encode_scalar(t[0] as u32);
        assert(1 <= e.len() <= 4);
    }
}

/// The byte column counts the cursor's column in UTF-8 bytes: between one
/// and four bytes per char, exactly one per char on an ASCII line.
pub proof fn law_byte_col_bounds(s: BufferState)
    requires
        s.valid(),
    ensures
        s.col() <= s.byte_col() <= 4 * s.col(),
        vstd::utf8::is_ascii_chars(s.text.subrange(s.cursor - s.col(), s.cursor)) ==> s.byte_col()
            == s.col(),
{
    law_col_is_distance_to_line_start(s);
    let t = s.text.subrange(s.cursor - s.col(), s.cursor);
    lemma_utf8_length_bounds(t);
    if vstd::utf8::is_ascii_chars(t) {
        vstd::utf8::is_ascii_chars_encode_utf8(t);
    }
}

} // verus!
