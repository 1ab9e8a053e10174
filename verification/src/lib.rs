//! The core of a small terminal text editor: the row buffer with its cursor,
//! the viewport that follows the cursor, the renderer that composes one frame
//! per refresh, the key decoder and the command dispatcher.
//!
//! The library never touches the terminal itself. It consumes decoded input
//! events and produces frames and requests; the program around it performs
//! them.

pub mod text;
pub mod ansi;
pub mod row;
pub mod buffer;
pub mod edits;
pub mod error;
pub mod reader;
pub mod status;
pub mod terminal;
pub mod viewport;
pub mod editor;
