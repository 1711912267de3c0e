//! A rope-backed text buffer whose cursor is a char offset, with undo and
//! redo over whole-text snapshots.
//!
//! Line breaks are meant to be LF only (the editor never inserts CR), which
//! keeps the rope's lines and the renderer's lines the same; the contracts
//! below hold for any text all the same.
pub mod history;
pub mod laws;

use vstd::prelude::*;
use ropey::{Rope, RopeSlice};
use crate::lines::{
    breaks_before, len_without_lf, line_chars, line_count, line_start, lemma_line_of_index,
    lemma_line_start, lemma_line_start_ordered,
};
use crate::rope::{
    rope_chars, slice_chars, rope_from_str, rope_len_chars, rope_len_lines, rope_insert_char,
    rope_remove, rope_char_to_line, rope_line_to_char, rope_line, rope_to_string, slice_len_chars,
    slice_char, slice_slice, slice_len_bytes,
};
use vstd::utf8::encode_utf8;
use crate::buffer::history::{EditKind, History, HistoryState, SnapshotState};

verus! {

/// What a buffer is: its text, its cursor (a char offset into the text, at
/// most its length) and whether it changed since the flag was last taken.
pub struct BufferState {
    pub text: Seq<char>,
    pub cursor: int,
    pub dirty: bool,
}

/// The smaller of two integers.
pub open spec fn min_int(a: int, b: int) -> int {
    if a <= b {
        a
    } else {
        b
    }
}

impl BufferState {
    /// The cursor lies within the text.
    pub open spec fn valid(self) -> bool {
        0 <= self.cursor <= self.text.len()
    }

    /// The text and the cursor as a history snapshot (the buffer keeps no
    /// selection).
    pub open spec fn snapshot(self) -> SnapshotState {
        (self.text, self.cursor as usize, None)
    }

    /// The buffer after undo or redo hands back `target`: its text and
    /// cursor, flagged as changed; nothing when there is no target.
    pub open spec fn restored(self, target: Option<SnapshotState>) -> BufferState {
        match target {
            Some(t) => BufferState { text: t.0, cursor: t.1 as int, dirty: true },
            None => self,
        }
    }

    /// The index of the line that holds the cursor.
    pub open spec fn line(self) -> int {
        breaks_before(self.text, self.cursor) as int
    }

    /// The cursor's char offset from the start of its line.
    pub open spec fn col(self) -> int {
        self.cursor - line_start(self.text, self.line())
    }

    /// The cursor's byte offset, in UTF-8, from the start of its line.
    pub open spec fn byte_col(self) -> int {
        encode_utf8(self.text.subrange(line_start(self.text, self.line()), self.cursor)).len() as int
    }

    /// Where the cursor goes when it moves to line `line`: the same column,
    /// but no further than the end of that line without its final LF.
    pub open spec fn vertical_target(self, line: int) -> int {
        line_start(self.text, line) + min_int(
            self.col(),
            len_without_lf(line_chars(self.text, line)) as int,
        )
    }

    /// `c` typed at the cursor, which moves past it.
    pub open spec fn after_insert_char(self, c: char) -> BufferState {
        BufferState {
            text: self.text.take(self.cursor).push(c) + self.text.skip(self.cursor),
            cursor: self.cursor + 1,
            dirty: true,
        }
    }

    /// The char before the cursor removed; nothing at the start of the text.
    pub open spec fn after_backspace(self) -> BufferState {
        if self.cursor == 0 {
            self
        } else {
            BufferState {
                text: self.text.take(self.cursor - 1) + self.text.skip(self.cursor),
                cursor: self.cursor - 1,
                dirty: true,
            }
        }
    }

    /// The char at the cursor removed; nothing at the end of the text.
    pub open spec fn after_delete_forward(self) -> BufferState {
        if self.cursor >= self.text.len() {
            self
        } else {
            BufferState {
                text: self.text.take(self.cursor) + self.text.skip(self.cursor + 1),
                cursor: self.cursor,
                dirty: true,
            }
        }
    }

    /// The cursor one char back; nothing at the start of the text.
    pub open spec fn after_move_left(self) -> BufferState {
        if self.cursor > 0 {
            BufferState { cursor: self.cursor - 1, dirty: true, ..self }
        } else {
            self
        }
    }

    /// The cursor one char on; nothing at the end of the text.
    pub open spec fn after_move_right(self) -> BufferState {
        if self.cursor < self.text.len() {
            BufferState { cursor: self.cursor + 1, dirty: true, ..self }
        } else {
            self
        }
    }

    /// The cursor to the line above, same column where it fits; nothing on
    /// the first line.
    pub open spec fn after_move_up(self) -> BufferState {
        if self.line() == 0 {
            self
        } else {
            BufferState { cursor: self.vertical_target(self.line() - 1), dirty: true, ..self }
        }
    }

    /// The cursor to the line below, same column where it fits; nothing on
    /// the last line.
    pub open spec fn after_move_down(self) -> BufferState {
        if self.line() + 1 >= line_count(self.text) {
            self
        } else {
            BufferState { cursor: self.vertical_target(self.line() + 1), dirty: true, ..self }
        }
    }
}

/// A text buffer held in a rope, with a char-offset cursor and a flag that
/// records changes.
pub struct Buffer {
    rope: Rope,
    cursor: usize,
    dirty: bool,
    history: History,
}

/// A snapshot that a buffer can go back to: its cursor lies within its
/// text, whose length fits a `usize`.
pub open spec fn snapshot_valid(snapshot: SnapshotState) -> bool {
    snapshot.1 <= snapshot.0.len() <= usize::MAX
}

/// Every snapshot of a history is one that a buffer can go back to.
pub open spec fn history_valid(h: HistoryState) -> bool {
    &&& forall|i: int| 0 <= i < h.undo.len() ==> snapshot_valid(#[trigger] h.undo[i])
    &&& forall|i: int| 0 <= i < h.redo.len() ==> snapshot_valid(#[trigger] h.redo[i])
}

/// The history after an edit of `kind` that took the buffer from `before` to
/// `after`.
pub open spec fn history_after_edit(
    h: HistoryState,
    kind: EditKind,
    before: BufferState,
    after: BufferState,
) -> HistoryState {
    h.after_checkpoint(kind, before.snapshot()).after_note_cursor(after.cursor as usize)
}

impl View for Buffer {
    type V = BufferState;

    closed spec fn view(&self) -> BufferState {
        BufferState { text: rope_chars(self.rope), cursor: self.cursor as int, dirty: self.dirty }
    }
}

/// The length of a line without its final LF.
fn line_char_len_without_break(line: RopeSlice<'_>) -> (n: usize)
    ensures
        n == len_without_lf(slice_chars(line)),
{
    let len = slice_len_chars(&line);
    if len == 0 {
        return 0;
    }
    if slice_char(&line, len - 1) == '\n' {
        len - 1
    } else {
        len
    }
}

impl Buffer {
    /// The buffer is well formed: the cursor lies within the text, whose
    /// length fits a `usize`.
    pub closed spec fn wf(&self) -> bool {
        &&& self.cursor <= rope_chars(self.rope).len()
        &&& rope_chars(self.rope).len() <= usize::MAX
        &&& history_valid(self.history@)
    }

    /// The undo and redo history.
    pub closed spec fn history_state(&self) -> HistoryState {
        self.history@
    }

    /// A well-formed buffer's cursor lies within its text, whose length fits
    /// a `usize`.
    pub proof fn lemma_wf_valid(&self)
        requires
            self.wf(),
        ensures
            self@.valid(),
            self@.text.len() <= usize::MAX,
            history_valid(self.history_state()),
    {
    }

    /// A buffer that holds `initial_text`, with the cursor at its end and the
    /// changed flag set.
    pub fn new(initial_text: &str) -> (buffer: Self)
        ensures
            buffer.wf(),
            buffer@ == (BufferState {
                text: initial_text@,
                cursor: initial_text@.len() as int,
                dirty: true,
            }),
            buffer.history_state() == (HistoryState {
                undo: Seq::empty(),
                redo: Seq::empty(),
                last_kind: None,
                last_cursor_after: None,
            }),
    {
        let rope = rope_from_str(initial_text);
        let cursor = rope_len_chars(&rope);
        Self { rope, cursor, dirty: true, history: History::new() }
    }

    /// The number of chars of the text.
    pub fn len_chars(&self) -> (n: usize)
        ensures
            n == self@.text.len(),
    {
        rope_len_chars(&self.rope)
    }

    /// The whole text.
    pub fn text(&self) -> (text: String)
        ensures
            text@ == self@.text,
    {
        rope_to_string(&self.rope)
    }

    /// Whether the buffer changed since the last call; clears the flag.
    pub fn take_dirty(&mut self) -> (was_dirty: bool)
        requires
            old(self).wf(),
        ensures
            final(self).wf(),
            was_dirty == old(self)@.dirty,
            final(self)@ == (BufferState { dirty: false, ..old(self)@ }),
            final(self).history_state() == old(self).history_state(),
    {
        let was_dirty = self.dirty;
        self.dirty = false;
        was_dirty
    }

    /// Inserts `c` at the cursor and moves the cursor past it; the history
    /// records the edit as an insert.
    pub fn insert_char(&mut self, c: char)
        requires
            old(self).wf(),
            old(self)@.text.len() < usize::MAX,
        ensures
            final(self).wf(),
            final(self)@ == old(self)@.after_insert_char(c),
            final(self).history_state() == history_after_edit(
                old(self).history_state(),
                EditKind::Insert,
                old(self)@,
                final(self)@,
            ),
    {
        self.history.checkpoint(EditKind::Insert, &self.rope, self.cursor, None);
        rope_insert_char(&mut self.rope, self.cursor, c);
        self.cursor = self.cursor + 1;
        self.dirty = true;
        self.history.note_cursor_after_edit(self.cursor);
    }

    /// Removes the char before the cursor; does nothing at the start. The
    /// history records a removal as a delete.
    pub fn backspace(&mut self)
        requires
            old(self).wf(),
        ensures
            final(self).wf(),
            final(self)@ == old(self)@.after_backspace(),
            final(self).history_state() == if old(self)@.cursor == 0 {
                old(self).history_state()
            } else {
                history_after_edit(
                    old(self).history_state(),
                    EditKind::Delete,
                    old(self)@,
                    final(self)@,
                )
            },
    {
        if self.cursor == 0 {
            return;
        }
        self.history.checkpoint(EditKind::Delete, &self.rope, self.cursor, None);
        let start = self.cursor - 1;
        rope_remove(&mut self.rope, start, self.cursor);
        self.cursor = start;
        self.dirty = true;
        self.history.note_cursor_after_edit(self.cursor);
    }

    /// Removes the char at the cursor; does nothing at the end. The history
    /// records a removal as a delete.
    pub fn delete_forward(&mut self)
        requires
            old(self).wf(),
        ensures
            final(self).wf(),
            final(self)@ == old(self)@.after_delete_forward(),
            final(self).history_state() == if old(self)@.cursor >= old(self)@.text.len() {
                old(self).history_state()
            } else {
                history_after_edit(
                    old(self).history_state(),
                    EditKind::Delete,
                    old(self)@,
                    final(self)@,
                )
            },
    {
        if self.cursor >= rope_len_chars(&self.rope) {
            return;
        }
        self.history.checkpoint(EditKind::Delete, &self.rope, self.cursor, None);
        rope_remove(&mut self.rope, self.cursor, self.cursor + 1);
        self.dirty = true;
        self.history.note_cursor_after_edit(self.cursor);
    }

    /// Goes back to the state before the last undo step, which the current
    /// state makes way for as a redo step; does nothing when there is none.
    pub fn undo(&mut self)
        requires
            old(self).wf(),
        ensures
            final(self).wf(),
            final(self)@ == old(self)@.restored(old(self).history_state().undo_target()),
            final(self).history_state() == old(self).history_state().after_undo(
                old(self)@.snapshot(),
            ),
    {
        let restored = self.history.undo(&self.rope, self.cursor, None);
        proof {
            let h = old(self).history_state();
            if h.undo.len() > 0 {
                assert(snapshot_valid(h.undo[h.undo.len() - 1]));
            }
            assert(history_valid(self.history@)) by {
                let n = self.history@.undo.len();
                assert forall|i: int| 0 <= i < n implies snapshot_valid(
                    #[trigger] self.history@.undo[i],
                ) by {
                    assert(self.history@.undo[i] == h.undo[i]);
                }
            }
        }
        if let Some((rope, cursor, _)) = restored {
            self.rope = rope;
            self.cursor = cursor;
            self.dirty = true;
        }
    }

    /// Goes forward to the state of the last redo step, which the current
    /// state makes way for as an undo step; does nothing when there is none.
    pub fn redo(&mut self)
        requires
            old(self).wf(),
        ensures
            final(self).wf(),
            final(self)@ == old(self)@.restored(old(self).history_state().redo_target()),
            final(self).history_state() == old(self).history_state().after_redo(
                old(self)@.snapshot(),
            ),
    {
        let restored = self.history.redo(&self.rope, self.cursor, None);
        proof {
            let h = old(self).history_state();
            if h.redo.len() > 0 {
                assert(snapshot_valid(h.redo[h.redo.len() - 1]));
            }
            assert(history_valid(self.history@)) by {
                let n = self.history@.redo.len();
                assert forall|i: int| 0 <= i < n implies snapshot_valid(
                    #[trigger] self.history@.redo[i],
                ) by {
                    assert(self.history@.redo[i] == h.redo[i]);
                }
            }
        }
        if let Some((rope, cursor, _)) = restored {
            self.rope = rope;
            self.cursor = cursor;
            self.dirty = true;
        }
    }

    /// Moves the cursor one char back.
    pub fn move_left(&mut self)
        requires
            old(self).wf(),
        ensures
            final(self).wf(),
            final(self)@ == old(self)@.after_move_left(),
            final(self).history_state() == old(self).history_state(),
    {
        if self.cursor > 0 {
            self.cursor = self.cursor - 1;
            self.dirty = true;
        }
    }

    /// Moves the cursor one char on.
    pub fn move_right(&mut self)
        requires
            old(self).wf(),
        ensures
            final(self).wf(),
            final(self)@ == old(self)@.after_move_right(),
            final(self).history_state() == old(self).history_state(),
    {
        if self.cursor < rope_len_chars(&self.rope) {
            self.cursor = self.cursor + 1;
            self.dirty = true;
        }
    }

    /// Moves the cursor to the line above, keeping its column where the line
    /// is long enough.
    pub fn move_up(&mut self)
        requires
            old(self).wf(),
        ensures
            final(self).wf(),
            final(self)@ == old(self)@.after_move_up(),
            final(self).history_state() == old(self).history_state(),
    {
        let (line, col) = self.cursor_line_col();
        if line == 0 {
            return;
        }
        self.move_to_line_col(line - 1, col);
    }

    /// Moves the cursor to the line below, keeping its column where the line
    /// is long enough.
    pub fn move_down(&mut self)
        requires
            old(self).wf(),
        ensures
            final(self).wf(),
            final(self)@ == old(self)@.after_move_down(),
            final(self).history_state() == old(self).history_state(),
    {
        let (line, col) = self.cursor_line_col();
        proof {
            lemma_line_of_index(self@.text, self@.cursor);
        }
        let len_lines = rope_len_lines(&self.rope);
        if line + 1 >= len_lines {
            return;
        }
        self.move_to_line_col(line + 1, col);
    }

    fn move_to_line_col(&mut self, line: usize, col: usize)
        requires
            old(self).wf(),
            line < line_count(old(self)@.text),
        ensures
            final(self).wf(),
            final(self)@ == (BufferState {
                cursor: line_start(old(self)@.text, line as int) + min_int(
                    col as int,
                    len_without_lf(line_chars(old(self)@.text, line as int)) as int,
                ),
                dirty: true,
                ..old(self)@
            }),
            final(self).history_state() == old(self).history_state(),
    {
        proof {
            lemma_line_start_ordered(self@.text, line as int);
        }
        let line_start = rope_line_to_char(&self.rope, line);
        let line_len = line_char_len_without_break(rope_line(&self.rope, line));
        let target_col = if col <= line_len {
            col
        } else {
            line_len
        };
        self.cursor = line_start + target_col;
        self.dirty = true;
    }

    /// The cursor's (line index, char offset within the line).
    pub fn cursor_line_col(&self) -> (line_col: (usize, usize))
        requires
            self.wf(),
        ensures
            line_col.0 == self@.line(),
            line_col.1 == self@.col(),
    {
        proof {
            lemma_line_of_index(self@.text, self@.cursor);
        }
        let line = rope_char_to_line(&self.rope, self.cursor);
        let line_start = rope_line_to_char(&self.rope, line);
        (line, self.cursor - line_start)
    }

    /// The cursor's (line index, UTF-8 byte offset within the line).
    pub fn cursor_byte_col(&self) -> (line_col: (usize, usize))
        requires
            self.wf(),
        ensures
            line_col.0 == self@.line(),
            line_col.1 == self@.byte_col(),
    {
        let (line, col_chars) = self.cursor_line_col();
        proof {
            let s = self@.text;
            lemma_line_of_index(s, self@.cursor);
            lemma_line_start_ordered(s, line as int);
            lemma_line_start(s, line as int);
            assert(self@.cursor <= line_start(s, line + 1));
        }
        let line_slice = rope_line(&self.rope, line);
        let byte_col = slice_len_bytes(&slice_slice(&line_slice, 0, col_chars));
        proof {
            let s = self@.text;
            let ls = line_start(s, line as int);
            assert(slice_chars(line_slice).subrange(0, col_chars as int) =~= s.subrange(
                ls,
                self@.cursor,
            ));
        }
        (line, byte_col)
    }
}

} // verus!
