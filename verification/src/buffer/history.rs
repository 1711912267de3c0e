//! Snapshot history for undo and redo.
//!
//! A rope clone shares its structure, so taking a snapshot of the whole text
//! at every edit is cheap.
use vstd::prelude::*;
use ropey::Rope;
use crate::rope::{rope_chars, rope_clone};

verus! {

/// The kind of the last edit. Edits of the same kind that follow each other
/// (typing, or backspace pressed again and again) make one undo step.
#[derive(Clone, Copy, PartialEq, Eq, Structural, Debug)]
pub enum EditKind {
    Insert,
    Delete,
    Other,
}

/// What a snapshot holds: the text, the cursor and the selection anchor.
pub type SnapshotState = (Seq<char>, usize, Option<usize>);

struct Snapshot {
    rope: Rope,
    cursor: usize,
    selection_anchor: Option<usize>,
}

impl Snapshot {
    spec fn state(self) -> SnapshotState {
        (rope_chars(self.rope), self.cursor, self.selection_anchor)
    }
}

/// What a history is: the states that undo goes back to (the most recent
/// last), the states that redo goes forward to (the most recent last), the
/// kind of the last edit, and where the cursor stood after it.
pub struct HistoryState {
    pub undo: Seq<SnapshotState>,
    pub redo: Seq<SnapshotState>,
    pub last_kind: Option<EditKind>,
    pub last_cursor_after: Option<usize>,
}

impl HistoryState {
    /// An edit of `kind` that starts at `cursor` joins the last undo step:
    /// it types or deletes like the last edit did, from where that one ended.
    pub open spec fn coalesces(self, kind: EditKind, cursor: usize) -> bool {
        &&& (kind == EditKind::Insert || kind == EditKind::Delete)
        &&& self.last_kind == Some(kind)
        &&& self.last_cursor_after == Some(cursor)
    }

    /// Before an edit of `kind` from `state`: a new undo step holding
    /// `state` (and no more redo), unless the edit joins the last step.
    pub open spec fn after_checkpoint(self, kind: EditKind, state: SnapshotState) -> HistoryState {
        if self.coalesces(kind, state.1) {
            HistoryState { last_kind: Some(kind), ..self }
        } else {
            HistoryState {
                undo: self.undo.push(state),
                redo: Seq::empty(),
                last_kind: Some(kind),
                last_cursor_after: self.last_cursor_after,
            }
        }
    }

    /// After an edit that left the cursor at `cursor`.
    pub open spec fn after_note_cursor(self, cursor: usize) -> HistoryState {
        HistoryState { last_cursor_after: Some(cursor), ..self }
    }

    /// Undo from the current state `current`: the last undo step leaves,
    /// `current` becomes the last redo step; nothing when there is no step.
    pub open spec fn after_undo(self, current: SnapshotState) -> HistoryState {
        if self.undo.len() == 0 {
            self
        } else {
            HistoryState {
                undo: self.undo.drop_last(),
                redo: self.redo.push(current),
                last_kind: None,
                last_cursor_after: None,
            }
        }
    }

    /// The state that undo goes back to.
    pub open spec fn undo_target(self) -> Option<SnapshotState> {
        if self.undo.len() == 0 {
            None
        } else {
            Some(self.undo.last())
        }
    }

    /// Redo from the current state `current`: the last redo step leaves,
    /// `current` becomes the last undo step; nothing when there is no step.
    pub open spec fn after_redo(self, current: SnapshotState) -> HistoryState {
        if self.redo.len() == 0 {
            self
        } else {
            HistoryState {
                undo: self.undo.push(current),
                redo: self.redo.drop_last(),
                last_kind: None,
                last_cursor_after: None,
            }
        }
    }

    /// The state that redo goes forward to.
    pub open spec fn redo_target(self) -> Option<SnapshotState> {
        if self.redo.len() == 0 {
            None
        } else {
            Some(self.redo.last())
        }
    }
}

/// The state that an undo or redo hands back, as plain values.
pub open spec fn restored_state(r: Option<(Rope, usize, Option<usize>)>) -> Option<SnapshotState> {
    match r {
        Some((rope, cursor, anchor)) => Some((rope_chars(rope), cursor, anchor)),
        None => None,
    }
}

/// Undo and redo history, as stacks of whole-text snapshots.
pub struct History {
    undo_stack: Vec<Snapshot>,
    redo_stack: Vec<Snapshot>,
    last_kind: Option<EditKind>,
    last_cursor_after: Option<usize>,
}

spec fn states(stack: Seq<Snapshot>) -> Seq<SnapshotState> {
    stack.map_values(|s: Snapshot| s.state())
}

impl View for History {
    type V = HistoryState;

    closed spec fn view(&self) -> HistoryState {
        HistoryState {
            undo: states(self.undo_stack@),
            redo: states(self.redo_stack@),
            last_kind: self.last_kind,
            last_cursor_after: self.last_cursor_after,
        }
    }
}

impl Default for History {
    fn default() -> (h: Self)
        ensures
            h@ == (HistoryState {
                undo: Seq::empty(),
                redo: Seq::empty(),
                last_kind: None,
                last_cursor_after: None,
            }),
    {
        let h = History {
            undo_stack: Vec::new(),
            redo_stack: Vec::new(),
            last_kind: None,
            last_cursor_after: None,
        };
        assert(h@.undo =~= Seq::empty());
        assert(h@.redo =~= Seq::empty());
        h
    }
}

fn push_snapshot(stack: &mut Vec<Snapshot>, snapshot: Snapshot)
    ensures
        states(final(stack)@) == states(old(stack)@).push(snapshot.state()),
{
    stack.push(snapshot);
    assert(states(stack@) =~= states(old(stack)@).push(snapshot.state()));
}

fn pop_snapshot(stack: &mut Vec<Snapshot>) -> (top: Option<Snapshot>)
    ensures
        states(old(stack)@).len() == 0 ==> top is None && final(stack)@ == old(stack)@,
        states(old(stack)@).len() > 0 ==> top is Some && top->0.state() == states(old(stack)@).last()
            && states(final(stack)@) == states(old(stack)@).drop_last(),
{
    let top = stack.pop();
    if top.is_some() {
        assert(states(stack@) =~= states(old(stack)@).drop_last());
    }
    top
}

fn kind_equals(a: EditKind, b: EditKind) -> (eq: bool)
    ensures
        eq == (a == b),
{
    match (a, b) {
        (EditKind::Insert, EditKind::Insert) => true,
        (EditKind::Delete, EditKind::Delete) => true,
        (EditKind::Other, EditKind::Other) => true,
        _ => false,
    }
}

impl History {
    /// An empty history.
    pub fn new() -> (h: Self)
        ensures
            h@ == (HistoryState {
                undo: Seq::empty(),
                redo: Seq::empty(),
                last_kind: None,
                last_cursor_after: None,
            }),
    {
        Self::default()
    }

    /// Called right before an edit of `kind` on the text `rope` with the
    /// cursor at `cursor`. Inserts (or deletes) that follow an insert (or
    /// delete) from the cursor where it ended join its undo step; any other
    /// edit opens a new step and drops the redo steps. A cursor that moved in
    /// between (arrow keys, the mouse, a new selection) opens a new step even
    /// for the same kind.
    pub fn checkpoint(
        &mut self,
        kind: EditKind,
        rope: &Rope,
        cursor: usize,
        selection_anchor: Option<usize>,
    )
        ensures
            final(self)@ == old(self)@.after_checkpoint(
                kind,
                (rope_chars(*rope), cursor, selection_anchor),
            ),
    {
        let same_kind = match self.last_kind {
            Some(last) => kind_equals(last, kind),
            None => false,
        };
        let same_cursor = match self.last_cursor_after {
            Some(after) => after == cursor,
            None => false,
        };
        let coalesce = match kind {
            EditKind::Insert | EditKind::Delete => true,
            EditKind::Other => false,
        } && same_kind && same_cursor;
        if !coalesce {
            let snapshot = Snapshot { rope: rope_clone(rope), cursor, selection_anchor };
            push_snapshot(&mut self.undo_stack, snapshot);
            self.redo_stack.clear();
            assert(states(self.redo_stack@) =~= Seq::empty());
        }
        self.last_kind = Some(kind);
    }

    /// Called right after an edit: records where the cursor ended, which the
    /// next edit is compared with.
    pub fn note_cursor_after_edit(&mut self, cursor: usize)
        ensures
            final(self)@ == old(self)@.after_note_cursor(cursor),
    {
        self.last_cursor_after = Some(cursor);
    }

    /// Goes back one undo step from the current state (`rope`, `cursor`,
    /// `selection_anchor`), which becomes a redo step; hands back the state
    /// to restore, or `None` (and changes nothing) when there is no step.
    pub fn undo(
        &mut self,
        rope: &Rope,
        cursor: usize,
        selection_anchor: Option<usize>,
    ) -> (restored: Option<(Rope, usize, Option<usize>)>)
        ensures
            restored_state(restored) == old(self)@.undo_target(),
            final(self)@ == old(self)@.after_undo((rope_chars(*rope), cursor, selection_anchor)),
    {
        let snapshot = match pop_snapshot(&mut self.undo_stack) {
            Some(s) => s,
            None => return None,
        };
        push_snapshot(&mut self.redo_stack, Snapshot { rope: rope_clone(rope), cursor, selection_anchor });
        self.last_kind = None;
        self.last_cursor_after = None;
        Some((snapshot.rope, snapshot.cursor, snapshot.selection_anchor))
    }

    /// Goes forward one redo step from the current state, which becomes an
    /// undo step; hands back the state to restore, or `None` (and changes
    /// nothing) when there is no step.
    pub fn redo(
        &mut self,
        rope: &Rope,
        cursor: usize,
        selection_anchor: Option<usize>,
    ) -> (restored: Option<(Rope, usize, Option<usize>)>)
        ensures
            restored_state(restored) == old(self)@.redo_target(),
            final(self)@ == old(self)@.after_redo((rope_chars(*rope), cursor, selection_anchor)),
    {
        let snapshot = match pop_snapshot(&mut self.redo_stack) {
            Some(s) => s,
            None => return None,
        };
        push_snapshot(&mut self.undo_stack, Snapshot { rope: rope_clone(rope), cursor, selection_anchor });
        self.last_kind = None;
        self.last_cursor_after = None;
        Some((snapshot.rope, snapshot.cursor, snapshot.selection_anchor))
    }
}


/// Redo right after an undo hands back the state the undo started from, and
/// leaves both stacks as they were before the undo.
pub proof fn law_redo_undoes_undo(h: HistoryState, current: SnapshotState)
    requires
        h.undo.len() > 0,
    ensures
        h.after_undo(current).redo_target() == Some(current),
        h.after_undo(current).after_redo(h.undo_target()->0) == (HistoryState {
            last_kind: None,
            last_cursor_after: None,
            ..h
        }),
{
    assert(h.undo.drop_last().push(h.undo.last()) =~= h.undo);
    assert(h.redo.push(current).drop_last() =~= h.redo);
}

/// Undo right after a redo hands back the state the redo started from, and
/// leaves both stacks as they were before the redo.
pub proof fn law_undo_undoes_redo(h: HistoryState, current: SnapshotState)
    requires
        h.redo.len() > 0,
    ensures
        h.after_redo(current).undo_target() == Some(current),
        h.after_redo(current).after_undo(h.redo_target()->0) == (HistoryState {
            last_kind: None,
            last_cursor_after: None,
            ..h
        }),
{
    assert(h.redo.drop_last().push(h.redo.last()) =~= h.redo);
    assert(h.undo.push(current).drop_last() =~= h.undo);
}

/// An edit that opens a new undo step is undone back to the state it
/// started from, and it drops every redo step.
pub proof fn law_undo_returns_to_checkpoint(h: HistoryState, kind: EditKind, state: SnapshotState)
    requires
        !h.coalesces(kind, state.1),
    ensures
        h.after_checkpoint(kind, state).undo_target() == Some(state),
        h.after_checkpoint(kind, state).redo_target() == None::<SnapshotState>,
        h.after_checkpoint(kind, state).undo.len() == h.undo.len() + 1,
{
}

/// With nothing to undo (or redo), undo (or redo) hands back nothing and
/// changes nothing.
pub proof fn law_empty_stack_changes_nothing(h: HistoryState, current: SnapshotState)
    ensures
        h.undo.len() == 0 ==> h.undo_target() == None::<SnapshotState> && h.after_undo(current)
            == h,
        h.redo.len() == 0 ==> h.redo_target() == None::<SnapshotState> && h.after_redo(current)
            == h,
{
}

/// A run of edits of one kind (typing, or deleting), each starting where the
/// last one left the cursor, makes a single undo step: the state before the
/// first edit.
pub proof fn law_edit_run_is_one_step(
    h: HistoryState,
    kind: EditKind,
    first: SnapshotState,
    cursor_after: usize,
    next: SnapshotState,
)
    requires
        kind == EditKind::Insert || kind == EditKind::Delete,
        next.1 == cursor_after,
    ensures
        h.after_checkpoint(kind, first).after_note_cursor(cursor_after).after_checkpoint(
            kind,
            next,
        ).undo == h.after_checkpoint(kind, first).undo,
{
}

/// Edits of another kind, or a cursor that moved in between, open a new step.
pub proof fn law_kind_change_or_jump_opens_step(
    h: HistoryState,
    kind: EditKind,
    first: SnapshotState,
    cursor_after: usize,
    next_kind: EditKind,
    next: SnapshotState,
)
    requires
        next_kind != kind || next.1 != cursor_after || next_kind == EditKind::Other,
    ensures
        h.after_checkpoint(kind, first).after_note_cursor(cursor_after).after_checkpoint(
            next_kind,
            next,
        ).undo == h.after_checkpoint(kind, first).undo.push(next),
{
}

} // verus!
