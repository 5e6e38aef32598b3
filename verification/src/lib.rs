//! A minimal line-oriented text editing engine.
//!
//! The library owns the pieces of a tiny terminal editor that are pure
//! computation: the line buffer with its edit operations, the cursor with
//! clamped movement, the byte-to-command mapping, and the editor step
//! function that ties them together. Terminal I/O (raw mode, rendering,
//! reading keys) lives outside the library.

pub mod buffer;
pub mod command;
pub mod cursor;
pub mod editor;
