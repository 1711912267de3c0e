# menfis

The editing core of menfis, a small GPU-rendered text editor, written in
Verus and verified.

- `src/lines.rs` models lines of text: which chars break lines, how many
  breaks lie before an index, where each line starts.
- `src/rope.rs` holds the trusted contracts of the `ropey` calls that the
  buffer makes.
- `src/buffer/` is the text buffer (a rope and a char-offset cursor), its
  undo/redo history, and the laws that relate the operations.
- `src/file_io.rs` decodes file bytes (UTF-8, else Shift_JIS) and encodes
  text, through `encoding_rs`.
- `src/input.rs` turns key presses into edits, moves, clipboard and file
  requests; `src/window.rs` holds the window title and the cursor blink.
- `app/` is the program around the library: the winit event loop, the wgpu
  and glyphon renderer, the clipboard and the file dialogs.
