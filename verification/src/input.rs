//! Key presses turned into editing commands, cursor moves and clipboard or
//! file requests.
//!
//! The windowing layer hands over each key press as a `KeyEvent` and the
//! modifier keys as `Modifiers`. Edits and moves go to the buffer here; what
//! needs the system (the clipboard, file dialogs) comes back as a command for
//! the caller to carry out.
use vstd::prelude::*;
use crate::buffer::{Buffer, BufferState, history_after_edit};
use crate::buffer::history::{EditKind, HistoryState};

verus! {

/// The modifier keys held down.
#[derive(Clone, Copy, PartialEq, Eq, Structural, Debug)]
pub struct Modifiers {
    pub shift: bool,
    pub control: bool,
    /// The Windows key, or Command on macOS.
    pub super_key: bool,
}

/// The named keys that the editor reacts to; `Other` for the rest.
#[derive(Clone, Copy, PartialEq, Eq, Structural, Debug)]
pub enum NamedKey {
    Backspace,
    Delete,
    Enter,
    ArrowLeft,
    ArrowRight,
    ArrowUp,
    ArrowDown,
    Other,
}

/// The logical key of a press: the chars that it stands for, a named key, or
/// neither.
#[derive(Debug)]
pub enum LogicalKey {
    Character(Vec<char>),
    Named(NamedKey),
    Unidentified,
}

/// A key press or release: whether it is a press, its logical key, and the
/// text that it types, if any.
#[derive(Debug)]
pub struct KeyEvent {
    pub pressed: bool,
    pub logical_key: LogicalKey,
    pub text: Option<Vec<char>>,
}

/// What a key event asks for.
#[derive(Debug)]
pub enum KeyCommand {
    Ignore,
    Copy,
    Cut,
    Paste,
    SelectAll,
    Undo,
    Redo,
    Backspace,
    DeleteForward,
    InsertNewline,
    MoveLeft { extend: bool },
    MoveRight { extend: bool },
    MoveUp { extend: bool },
    MoveDown { extend: bool },
    /// Type these chars (control chars already left out).
    InsertText(Vec<char>),
}

/// A file request made from the keyboard.
#[derive(Clone, Copy, PartialEq, Eq, Structural, Debug)]
pub enum FileShortcut {
    /// Not a file shortcut: the key goes on to text editing.
    NotHandled,
    /// Show the "open" dialog.
    OpenDialog,
    /// Show the "save as" dialog.
    SaveDialog,
    /// Write the text to the file it came from.
    SaveToCurrentPath,
}

/// A control char: general category Cc, U+0000 to U+001F and U+007F to U+009F.
pub open spec fn is_control_char(c: char) -> bool {
    (c as u32) <= 0x1F || (0x7F <= (c as u32) && (c as u32) <= 0x9F)
}

/// The chars of `s` that are not control chars, in order.
pub open spec fn without_controls(s: Seq<char>) -> Seq<char>
    decreases s.len(),
{
    if s.len() == 0 {
        s
    } else if is_control_char(s.last()) {
        without_controls(s.drop_last())
    } else {
        without_controls(s.drop_last()).push(s.last())
    }
}

/// The key is the letter whose lower case is `lower` and upper case `upper`.
pub open spec fn is_letter(chars: Seq<char>, lower: char, upper: char) -> bool {
    chars == seq![lower] || chars == seq![upper]
}

/// Control, or Command on macOS, is held: the shortcut key.
pub open spec fn shortcut_held(m: Modifiers) -> bool {
    m.control || m.super_key
}

/// The command a shortcut letter asks for, or `None` for a letter that is no
/// shortcut.
pub open spec fn shortcut_command(chars: Seq<char>, shift: bool) -> Option<KeyCommand> {
    if is_letter(chars, 'c', 'C') {
        Some(KeyCommand::Copy)
    } else if is_letter(chars, 'x', 'X') {
        Some(KeyCommand::Cut)
    } else if is_letter(chars, 'v', 'V') {
        Some(KeyCommand::Paste)
    } else if is_letter(chars, 'a', 'A') {
        Some(KeyCommand::SelectAll)
    } else if is_letter(chars, 'z', 'Z') {
        Some(if shift { KeyCommand::Redo } else { KeyCommand::Undo })
    } else if is_letter(chars, 'y', 'Y') {
        Some(KeyCommand::Redo)
    } else {
        None
    }
}

/// The command a key event asks for, as plain values: a release does
/// nothing; the shortcut key with C, X, V, A, Z (with Shift: redo) or Y asks
/// for copy, cut, paste, select all, undo or redo; Backspace, Delete, Enter
/// and the arrows edit or move (Shift extends the selection); any other key
/// types its text without control chars.
pub open spec fn command_for(event: KeyEvent, m: Modifiers) -> KeyCommandView {
    if !event.pressed {
        KeyCommandView::Ignore
    } else if shortcut_held(m) && event.logical_key is Character && shortcut_command(
        event.logical_key->Character_0@,
        m.shift,
    ) is Some {
        view_of(shortcut_command(event.logical_key->Character_0@, m.shift)->0)
    } else {
        match event.logical_key {
            LogicalKey::Named(NamedKey::Backspace) => KeyCommandView::Backspace,
            LogicalKey::Named(NamedKey::Delete) => KeyCommandView::DeleteForward,
            LogicalKey::Named(NamedKey::Enter) => KeyCommandView::InsertNewline,
            LogicalKey::Named(NamedKey::ArrowLeft) => KeyCommandView::MoveLeft { extend: m.shift },
            LogicalKey::Named(NamedKey::ArrowRight) => KeyCommandView::MoveRight {
                extend: m.shift,
            },
            LogicalKey::Named(NamedKey::ArrowUp) => KeyCommandView::MoveUp { extend: m.shift },
            LogicalKey::Named(NamedKey::ArrowDown) => KeyCommandView::MoveDown { extend: m.shift },
            _ => match event.text {
                Some(text) => KeyCommandView::InsertText(without_controls(text@)),
                None => KeyCommandView::Ignore,
            },
        }
    }
}

/// A key command as plain values.
pub enum KeyCommandView {
    Ignore,
    Copy,
    Cut,
    Paste,
    SelectAll,
    Undo,
    Redo,
    Backspace,
    DeleteForward,
    InsertNewline,
    MoveLeft { extend: bool },
    MoveRight { extend: bool },
    MoveUp { extend: bool },
    MoveDown { extend: bool },
    InsertText(Seq<char>),
}

/// A key command as plain values.
pub open spec fn view_of(c: KeyCommand) -> KeyCommandView {
    match c {
        KeyCommand::Ignore => KeyCommandView::Ignore,
        KeyCommand::Copy => KeyCommandView::Copy,
        KeyCommand::Cut => KeyCommandView::Cut,
        KeyCommand::Paste => KeyCommandView::Paste,
        KeyCommand::SelectAll => KeyCommandView::SelectAll,
        KeyCommand::Undo => KeyCommandView::Undo,
        KeyCommand::Redo => KeyCommandView::Redo,
        KeyCommand::Backspace => KeyCommandView::Backspace,
        KeyCommand::DeleteForward => KeyCommandView::DeleteForward,
        KeyCommand::InsertNewline => KeyCommandView::InsertNewline,
        KeyCommand::MoveLeft { extend } => KeyCommandView::MoveLeft { extend },
        KeyCommand::MoveRight { extend } => KeyCommandView::MoveRight { extend },
        KeyCommand::MoveUp { extend } => KeyCommandView::MoveUp { extend },
        KeyCommand::MoveDown { extend } => KeyCommandView::MoveDown { extend },
        KeyCommand::InsertText(chars) => KeyCommandView::InsertText(chars@),
    }
}

impl BufferState {
    /// `chars` typed at the cursor, which moves past them.
    pub open spec fn after_insert_chars(self, chars: Seq<char>) -> BufferState {
        BufferState {
            text: self.text.take(self.cursor) + chars + self.text.skip(self.cursor),
            cursor: self.cursor + chars.len(),
            dirty: self.dirty || chars.len() > 0,
        }
    }

    /// The buffer, with history `h`, after a key command: edits, moves,
    /// undo and redo change it (a move that extends the selection moves the
    /// cursor alone, the buffer keeping no selection); clipboard requests
    /// leave it as it is.
    pub open spec fn after_command(self, h: HistoryState, command: KeyCommandView) -> BufferState {
        match command {
            KeyCommandView::Undo => self.restored(h.undo_target()),
            KeyCommandView::Redo => self.restored(h.redo_target()),
            KeyCommandView::Backspace => self.after_backspace(),
            KeyCommandView::DeleteForward => self.after_delete_forward(),
            KeyCommandView::InsertNewline => self.after_insert_char('\n'),
            KeyCommandView::MoveLeft { .. } => self.after_move_left(),
            KeyCommandView::MoveRight { .. } => self.after_move_right(),
            KeyCommandView::MoveUp { .. } => self.after_move_up(),
            KeyCommandView::MoveDown { .. } => self.after_move_down(),
            KeyCommandView::InsertText(chars) => self.after_insert_chars(chars),
            _ => self,
        }
    }
}

/// The history after `chars` were typed one by one into the buffer `s`
/// whose history was `h`: each char an insert.
pub open spec fn history_after_inserts(h: HistoryState, s: BufferState, chars: Seq<char>) -> HistoryState
    decreases chars.len(),
{
    if chars.len() == 0 {
        h
    } else {
        let before = s.after_insert_chars(chars.drop_last());
        history_after_edit(
            history_after_inserts(h, s, chars.drop_last()),
            EditKind::Insert,
            before,
            before.after_insert_char(chars.last()),
        )
    }
}

/// The history of the buffer `s`, with history `h`, after a key command.
pub open spec fn history_after_command(h: HistoryState, s: BufferState, command: KeyCommandView) -> HistoryState {
    match command {
        KeyCommandView::Backspace => if s.cursor == 0 {
            h
        } else {
            history_after_edit(h, EditKind::Delete, s, s.after_backspace())
        },
        KeyCommandView::DeleteForward => if s.cursor >= s.text.len() {
            h
        } else {
            history_after_edit(h, EditKind::Delete, s, s.after_delete_forward())
        },
        KeyCommandView::InsertNewline => history_after_edit(
            h,
            EditKind::Insert,
            s,
            s.after_insert_char('\n'),
        ),
        KeyCommandView::InsertText(chars) => history_after_inserts(h, s, chars),
        KeyCommandView::Undo => h.after_undo(s.snapshot()),
        KeyCommandView::Redo => h.after_redo(s.snapshot()),
        _ => h,
    }
}

/// The number of chars that a key event may type.
pub open spec fn typed_len(event: KeyEvent) -> nat {
    match event.text {
        Some(text) => text@.len(),
        None => 0,
    }
}

/// The file request that a key event makes: the shortcut key with O opens;
/// with S it saves to the current file, or asks where to save when there is
/// none or Shift is held. Anything else, releases included, is no file
/// request.
pub open spec fn file_shortcut_for(event: KeyEvent, m: Modifiers, has_file_path: bool) -> FileShortcut {
    if !event.pressed || !shortcut_held(m) || !(event.logical_key is Character) {
        FileShortcut::NotHandled
    } else if is_letter(event.logical_key->Character_0@, 'o', 'O') {
        FileShortcut::OpenDialog
    } else if is_letter(event.logical_key->Character_0@, 's', 'S') {
        if m.shift || !has_file_path {
            FileShortcut::SaveDialog
        } else {
            FileShortcut::SaveToCurrentPath
        }
    } else {
        FileShortcut::NotHandled
    }
}

fn is_control(c: char) -> (control: bool)
    ensures
        control == is_control_char(c),
{
    let code = c as u32;
    code <= 0x1F || (0x7F <= code && code <= 0x9F)
}

fn is_letter_key(chars: &Vec<char>, lower: char, upper: char) -> (is: bool)
    ensures
        is == is_letter(chars@, lower, upper),
{
    if chars.len() == 1 {
        let c = chars[0];
        assert(chars@ == seq![lower] <==> c == lower) by {
            if c == lower {
                assert(chars@ =~= seq![lower]);
            }
        }
        assert(chars@ == seq![upper] <==> c == upper) by {
            if c == upper {
                assert(chars@ =~= seq![upper]);
            }
        }
        c == lower || c == upper
    } else {
        assert(seq![lower].len() == 1 && seq![upper].len() == 1);
        false
    }
}

fn shortcut_letter(chars: &Vec<char>, shift: bool) -> (command: Option<KeyCommand>)
    ensures
        match command {
            Some(c) => shortcut_command(chars@, shift) == Some(c) && view_of(c) == view_of(
                shortcut_command(chars@, shift)->0,
            ),
            None => shortcut_command(chars@, shift) is None,
        },
{
    if is_letter_key(chars, 'c', 'C') {
        Some(KeyCommand::Copy)
    } else if is_letter_key(chars, 'x', 'X') {
        Some(KeyCommand::Cut)
    } else if is_letter_key(chars, 'v', 'V') {
        Some(KeyCommand::Paste)
    } else if is_letter_key(chars, 'a', 'A') {
        Some(KeyCommand::SelectAll)
    } else if is_letter_key(chars, 'z', 'Z') {
        if shift {
            Some(KeyCommand::Redo)
        } else {
            Some(KeyCommand::Undo)
        }
    } else if is_letter_key(chars, 'y', 'Y') {
        Some(KeyCommand::Redo)
    } else {
        None
    }
}

/// The chars of `text` without its control chars.
pub fn filter_controls(text: &Vec<char>) -> (kept: Vec<char>)
    ensures
        kept@ == without_controls(text@),
{
    let mut kept: Vec<char> = Vec::new();
    let n = text.len();
    for i in 0..n
        invariant
            n == text@.len(),
            kept@ == without_controls(text@.take(i as int)),
    {
        let c = text[i];
        assert(text@.take(i + 1).drop_last() =~= text@.take(i as int));
        if !is_control(c) {
            kept.push(c);
        }
    }
    assert(text@.take(n as int) =~= text@);
    kept
}

/// The command that a key event asks for (see `command_for`).
pub fn key_command(event: &KeyEvent, modifiers: Modifiers) -> (command: KeyCommand)
    ensures
        view_of(command) == command_for(*event, modifiers),
{
    if !event.pressed {
        return KeyCommand::Ignore;
    }
    let shift = modifiers.shift;
    // Command on macOS counts as the shortcut key, like Control.
    let ctrl = modifiers.control || modifiers.super_key;
    if ctrl {
        if let LogicalKey::Character(s) = &event.logical_key {
            if let Some(command) = shortcut_letter(s, shift) {
                return command;
            }
        }
    }
    match &event.logical_key {
        LogicalKey::Named(NamedKey::Backspace) => KeyCommand::Backspace,
        LogicalKey::Named(NamedKey::Delete) => KeyCommand::DeleteForward,
        LogicalKey::Named(NamedKey::Enter) => KeyCommand::InsertNewline,
        LogicalKey::Named(NamedKey::ArrowLeft) => KeyCommand::MoveLeft { extend: shift },
        LogicalKey::Named(NamedKey::ArrowRight) => KeyCommand::MoveRight { extend: shift },
        LogicalKey::Named(NamedKey::ArrowUp) => KeyCommand::MoveUp { extend: shift },
        LogicalKey::Named(NamedKey::ArrowDown) => KeyCommand::MoveDown { extend: shift },
        _ => match &event.text {
            Some(text) => KeyCommand::InsertText(filter_controls(text)),
            None => KeyCommand::Ignore,
        },
    }
}

/// Types `chars` at the cursor, one after the other (for pasted text and
/// committed input-method text).
pub fn insert_text(buffer: &mut Buffer, chars: &Vec<char>)
    requires
        old(buffer).wf(),
        old(buffer)@.text.len() + chars@.len() <= usize::MAX,
    ensures
        final(buffer).wf(),
        final(buffer)@ == old(buffer)@.after_insert_chars(chars@),
        final(buffer).history_state() == history_after_inserts(
            old(buffer).history_state(),
            old(buffer)@,
            chars@,
        ),
{
    let n = chars.len();
    let ghost start = buffer@;
    let ghost h0 = buffer.history_state();
    proof {
        buffer.lemma_wf_valid();
        assert(start.text.take(start.cursor) + chars@.take(0) + start.text.skip(start.cursor)
            =~= start.text);
    }
    for i in 0..n
        invariant
            n == chars@.len(),
            start.valid(),
            start.text.len() + n <= usize::MAX,
            buffer.wf(),
            buffer@ == start.after_insert_chars(chars@.take(i as int)),
            buffer.history_state() == history_after_inserts(h0, start, chars@.take(i as int)),
    {
        let ghost before = buffer@;
        buffer.insert_char(chars[i]);
        proof {
            let k = start.cursor;
            let t = start.text;
            let p = chars@.take(i as int);
            assert(before.text.take(before.cursor) =~= t.take(k) + p);
            assert(before.text.skip(before.cursor) =~= t.skip(k));
            assert(chars@.take(i + 1) =~= p.push(chars@[i as int]));
            assert(buffer@.text =~= t.take(k) + chars@.take(i + 1) + t.skip(k));
            assert(chars@.take(i + 1).drop_last() =~= p);
        }
    }
    assert(chars@.take(n as int) =~= chars@);
}

/// Carries out a key event on the buffer: edits, moves, undo and redo are
/// made (the buffer keeps no selection, so Shift with an arrow moves the
/// cursor alone), and the command comes back so that the caller can serve
/// what needs the system clipboard: copy, cut, paste and select all.
pub fn handle_key_event(buffer: &mut Buffer, event: &KeyEvent, modifiers: Modifiers) -> (command:
    KeyCommand)
    requires
        old(buffer).wf(),
        old(buffer)@.text.len() + typed_len(*event) < usize::MAX,
    ensures
        view_of(command) == command_for(*event, modifiers),
        final(buffer).wf(),
        final(buffer)@ == old(buffer)@.after_command(
            old(buffer).history_state(),
            command_for(*event, modifiers),
        ),
        final(buffer).history_state() == history_after_command(
            old(buffer).history_state(),
            old(buffer)@,
            command_for(*event, modifiers),
        ),
{
    let command = key_command(event, modifiers);
    proof {
        if event.text is Some {
            lemma_without_controls_len(event.text->0@);
        }
    }
    match &command {
        KeyCommand::Backspace => buffer.backspace(),
        KeyCommand::DeleteForward => buffer.delete_forward(),
        KeyCommand::InsertNewline => buffer.insert_char('\n'),
        KeyCommand::MoveLeft { .. } => buffer.move_left(),
        KeyCommand::MoveRight { .. } => buffer.move_right(),
        KeyCommand::MoveUp { .. } => buffer.move_up(),
        KeyCommand::MoveDown { .. } => buffer.move_down(),
        KeyCommand::InsertText(chars) => insert_text(buffer, chars),
        KeyCommand::Undo => buffer.undo(),
        KeyCommand::Redo => buffer.redo(),
        _ => {},
    }
    command
}

proof fn lemma_without_controls_len(s: Seq<char>)
    ensures
        without_controls(s).len() <= s.len(),
    decreases s.len(),
{
    if s.len() > 0 {
        lemma_without_controls_len(s.drop_last());
    }
}

/// The file request that a key event makes (see `file_shortcut_for`);
/// `has_file_path` tells whether the text came from a file (or was saved to
/// one).
pub fn file_shortcut(event: &KeyEvent, modifiers: Modifiers, has_file_path: bool) -> (shortcut:
    FileShortcut)
    ensures
        shortcut == file_shortcut_for(*event, modifiers, has_file_path),
{
    if !event.pressed {
        return FileShortcut::NotHandled;
    }
    let ctrl = modifiers.control || modifiers.super_key;
    if !ctrl {
        return FileShortcut::NotHandled;
    }
    let s = match &event.logical_key {
        LogicalKey::Character(s) => s,
        _ => return FileShortcut::NotHandled,
    };
    if is_letter_key(s, 'o', 'O') {
        FileShortcut::OpenDialog
    } else if is_letter_key(s, 's', 'S') {
        if modifiers.shift {
            FileShortcut::SaveDialog
        } else if has_file_path {
            FileShortcut::SaveToCurrentPath
        } else {
            FileShortcut::SaveDialog
        }
    } else {
        FileShortcut::NotHandled
    }
}


/// A char outside general category Cc: from space to tilde, or from U+00A0 on.
pub open spec fn printable_char(c: char) -> bool {
    (0x20 <= (c as u32) && (c as u32) <= 0x7E) || 0xA0 <= (c as u32)
}

/// A char of general category Cc: U+0000 to U+001F, U+007F to U+009F.
pub open spec fn cc_char(c: char) -> bool {
    (c as u32) <= 0x1F || (0x7F <= (c as u32) && (c as u32) <= 0x9F)
}

/// Leaving out control chars keeps every char outside general category Cc
/// (space included) and drops every char in it: text without Cc chars comes
/// through whole, text of Cc chars only comes through empty, and nothing
/// comes out longer than it went in.
pub proof fn law_control_filter_keeps_exactly_non_cc(s: Seq<char>)
    ensures
        (forall|i: int| 0 <= i < s.len() ==> printable_char(#[trigger] s[i])) ==> without_controls(
            s,
        ) == s,
        (forall|i: int| 0 <= i < s.len() ==> cc_char(#[trigger] s[i])) ==> without_controls(s)
            == Seq::<char>::empty(),
        without_controls(s).len() <= s.len(),
    decreases s.len(),
{
    lemma_without_controls_len(s);
    if s.len() > 0 {
        let p = s.drop_last();
        law_control_filter_keeps_exactly_non_cc(p);
        if forall|i: int| 0 <= i < s.len() ==> printable_char(#[trigger] s[i]) {
            assert(forall|i: int| 0 <= i < p.len() ==> printable_char(#[trigger] p[i])) by {
                assert forall|i: int| 0 <= i < p.len() implies printable_char(#[trigger] p[i]) by {
                    assert(p[i] == s[i]);
                }
            }
            assert(printable_char(s[s.len() - 1]));
            assert(p.push(s.last()) =~= s);
        }
        if forall|i: int| 0 <= i < s.len() ==> cc_char(#[trigger] s[i]) {
            assert(forall|i: int| 0 <= i < p.len() ==> cc_char(#[trigger] p[i])) by {
                assert forall|i: int| 0 <= i < p.len() implies cc_char(#[trigger] p[i]) by {
                    assert(p[i] == s[i]);
                }
            }
            assert(cc_char(s[s.len() - 1]));
        }
    }
}

/// Control and Command serve alike as the shortcut key: swapping one for
/// the other changes neither the command nor the file request of any event;
/// with neither held no key makes a file request.
pub proof fn law_control_and_command_are_alike(e: KeyEvent, m: Modifiers, has_file_path: bool)
    ensures
        command_for(e, (Modifiers { control: true, super_key: false, ..m })) == command_for(
            e,
            (Modifiers { control: false, super_key: true, ..m }),
        ),
        file_shortcut_for(e, (Modifiers { control: true, super_key: false, ..m }), has_file_path)
            == file_shortcut_for(
            e,
            (Modifiers { control: false, super_key: true, ..m }),
            has_file_path,
        ),
        !m.control && !m.super_key ==> file_shortcut_for(e, m, has_file_path)
            == FileShortcut::NotHandled,
{
}

/// Pressing the shortcut key (Control or Command) with O asks to open; with
/// S it saves to the current file when there is one and Shift is up, and
/// asks where to save otherwise.
pub proof fn law_open_and_save_shortcuts(e: KeyEvent, m: Modifiers, has_file_path: bool)
    requires
        e.pressed,
        m.control || m.super_key,
        e.logical_key is Character,
    ensures
        (e.logical_key->Character_0@ == seq!['o'] || e.logical_key->Character_0@ == seq!['O'])
            ==> file_shortcut_for(e, m, has_file_path) == FileShortcut::OpenDialog,
        (e.logical_key->Character_0@ == seq!['s'] || e.logical_key->Character_0@ == seq!['S'])
            ==> file_shortcut_for(e, m, has_file_path) == if has_file_path && !m.shift {
            FileShortcut::SaveToCurrentPath
        } else {
            FileShortcut::SaveDialog
        },
{
    let k = e.logical_key->Character_0@;
    if k == seq!['s'] || k == seq!['S'] {
        assert(k[0] != seq!['o'][0] && k[0] != seq!['O'][0]);
        assert(k != seq!['o'] && k != seq!['O']);
    }
}

/// What the editing keys do to any buffer, whatever modifiers are held:
/// Right and Left step the cursor one char where they can, Up and Down go
/// to the line above or below (never the wrong way, nothing on the first or
/// last line), Backspace and Delete remove the char before or at the
/// cursor, Enter puts a line feed at the cursor; none of them touches the
/// history's stacks other than as an edit would, and a release does
/// nothing.
pub proof fn law_editing_keys(e: KeyEvent, m: Modifiers, s: BufferState, h: HistoryState)
    requires
        s.valid(),
        e.logical_key is Named,
    ensures
        ({
            let t = s.after_command(h, command_for(e, m));
            let k = e.logical_key->Named_0;
            &&& !e.pressed ==> t == s
            &&& e.pressed && k == NamedKey::ArrowRight ==> {
                &&& command_for(e, m) == (KeyCommandView::MoveRight { extend: m.shift })
                &&& t.text == s.text
                &&& t.cursor == if s.cursor < s.text.len() { s.cursor + 1 } else { s.cursor }
            }
            &&& e.pressed && k == NamedKey::ArrowLeft ==> {
                &&& command_for(e, m) == (KeyCommandView::MoveLeft { extend: m.shift })
                &&& t.text == s.text
                &&& t.cursor == if s.cursor > 0 { s.cursor - 1 } else { s.cursor }
            }
            &&& e.pressed && k == NamedKey::ArrowUp ==> {
                &&& command_for(e, m) == (KeyCommandView::MoveUp { extend: m.shift })
                &&& t.text == s.text
                &&& t.line() <= s.line()
                &&& s.line() == 0 ==> t == s
            }
            &&& e.pressed && k == NamedKey::ArrowDown ==> {
                &&& command_for(e, m) == (KeyCommandView::MoveDown { extend: m.shift })
                &&& t.text == s.text
                &&& t.line() >= s.line()
                &&& s.line() + 1 == crate::lines::line_count(s.text) ==> t == s
            }
            &&& e.pressed && k == NamedKey::Backspace ==> {
                &&& t.text.len() == if s.cursor > 0 { s.text.len() - 1 } else { s.text.len() as int }
                &&& t.cursor == if s.cursor > 0 { s.cursor - 1 } else { s.cursor }
                &&& t.text == s.text.take(t.cursor) + s.text.skip(s.cursor)
            }
            &&& e.pressed && k == NamedKey::Delete ==> {
                &&& t.text.len() == if s.cursor < s.text.len() {
                    s.text.len() - 1
                } else {
                    s.text.len() as int
                }
                &&& t.cursor == s.cursor
                &&& s.cursor < s.text.len() ==> t.text == s.text.take(s.cursor) + s.text.skip(
                    s.cursor + 1,
                )
            }
            &&& e.pressed && k == NamedKey::Enter ==> {
                &&& t.text == s.text.take(s.cursor) + seq!['\n'] + s.text.skip(s.cursor)
                &&& t.cursor == s.cursor + 1
            }
        }),
{
    crate::buffer::laws::law_vertical_moves_go_the_right_way(s);
    let t = s.after_command(h, command_for(e, m));
    if e.pressed && e.logical_key->Named_0 == NamedKey::Enter {
        assert(s.text.take(s.cursor).push('\n') =~= s.text.take(s.cursor) + seq!['\n']);
    }
    if e.pressed && e.logical_key->Named_0 == NamedKey::Backspace && s.cursor == 0 {
        assert(s.text.take(0) + s.text.skip(0) =~= s.text);
    }
}

/// A pressed key that is no shortcut and types text without control chars
/// puts exactly that text at the cursor and moves the cursor past it.
pub proof fn law_typing_inserts_text(e: KeyEvent, m: Modifiers, s: BufferState, h: HistoryState)
    requires
        s.valid(),
        e.pressed,
        !(e.logical_key is Named),
        !m.control && !m.super_key,
        e.text is Some,
        forall|i: int|
            0 <= i < e.text->0@.len() ==> printable_char(#[trigger] e.text->0@[i]),
    ensures
        s.after_command(h, command_for(e, m)).text == s.text.take(s.cursor) + e.text->0@
            + s.text.skip(s.cursor),
        s.after_command(h, command_for(e, m)).cursor == s.cursor + e.text->0@.len(),
{
    law_control_filter_keeps_exactly_non_cc(e.text->0@);
}


/// With the shortcut key (Control or Command) held, C, X, V and A ask for
/// copy, cut, paste and select all and leave the buffer as it is (the
/// caller serves them); Z undoes (redoes with Shift) and Y redoes, bringing
/// back the state of the last undo or redo step.
pub proof fn law_shortcut_letters(e: KeyEvent, m: Modifiers, s: BufferState, h: HistoryState)
    requires
        e.pressed,
        m.control || m.super_key,
        e.logical_key is Character,
    ensures
        ({
            let k = e.logical_key->Character_0@;
            let c = command_for(e, m);
            let t = s.after_command(h, c);
            &&& (k == seq!['c'] || k == seq!['C']) ==> c == KeyCommandView::Copy && t == s
            &&& (k == seq!['x'] || k == seq!['X']) ==> c == KeyCommandView::Cut && t == s
            &&& (k == seq!['v'] || k == seq!['V']) ==> c == KeyCommandView::Paste && t == s
            &&& (k == seq!['a'] || k == seq!['A']) ==> c == KeyCommandView::SelectAll && t == s
            &&& (k == seq!['z'] || k == seq!['Z']) && !m.shift ==> c == KeyCommandView::Undo && t
                == s.restored(h.undo_target())
            &&& (k == seq!['z'] || k == seq!['Z']) && m.shift ==> c == KeyCommandView::Redo && t
                == s.restored(h.redo_target())
            &&& (k == seq!['y'] || k == seq!['Y']) ==> c == KeyCommandView::Redo && t
                == s.restored(h.redo_target())
        }),
{
    let k = e.logical_key->Character_0@;
    if k.len() == 1 {
        let x = k[0];
        assert(k == seq!['c'] ==> x == 'c');
        assert(k == seq!['C'] ==> x == 'C');
        assert(k == seq!['x'] ==> x == 'x');
        assert(k == seq!['X'] ==> x == 'X');
        assert(k == seq!['v'] ==> x == 'v');
        assert(k == seq!['V'] ==> x == 'V');
        assert(k == seq!['a'] ==> x == 'a');
        assert(k == seq!['A'] ==> x == 'A');
        assert(k == seq!['z'] ==> x == 'z');
        assert(k == seq!['Z'] ==> x == 'Z');
        assert(k == seq!['y'] ==> x == 'y');
        assert(k == seq!['Y'] ==> x == 'Y');
    }
}

} // verus!
