//! The failures that end a run of the editor.

use vstd::prelude::*;

verus! {

/// A failure that the editor does not recover from. Whoever drives the
/// editor restores the terminal and hands the failure on.
#[derive(Clone, Copy, PartialEq, Eq, Structural, Debug)]
pub enum EditorError {
    /// The terminal refused raw mode, or a frame could not be written.
    Terminal,
    /// Waiting for input or reading it failed.
    Io,
}

} // verus!
