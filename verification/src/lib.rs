//! A small text editing core: a rope-backed text buffer with a char-indexed
//! cursor, snapshot-based undo/redo history, text decoding and encoding for
//! files, and the decisions that turn key presses into editing commands.

pub mod lines;
pub mod rope;
pub mod buffer;
pub mod file_io;
pub mod input;
pub mod window;
