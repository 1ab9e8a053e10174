//! The mode of the terminal, as the editor knows it.
//!
//! The editor does not switch the terminal itself. It is told whether raw
//! mode was granted, and it says whether the terminal has to be restored.

use crate::error::EditorError;
use vstd::prelude::*;

verus! {

/// The input mode of the terminal.
#[derive(Clone, Copy, PartialEq, Eq, Structural, Debug)]
pub enum TerminalMode {
    /// Line by line, with echo: the mode the editor found.
    Normal,
    /// Key by key, unprocessed.
    Raw,
}

impl TerminalMode {
    /// The mode after an attempt to enter raw mode.
    pub open spec fn after_enable(self, granted: bool) -> TerminalMode {
        if granted {
            TerminalMode::Raw
        } else {
            self
        }
    }

    /// Whether leaving this mode means restoring the terminal.
    pub open spec fn needs_restore(self) -> bool {
        self == TerminalMode::Raw
    }

    /// The mode after the terminal was given back.
    pub open spec fn after_disable(self) -> TerminalMode {
        TerminalMode::Normal
    }

    /// Whether the terminal is in raw mode.
    pub fn is_raw(&self) -> (raw: bool)
        ensures
            raw == (*self == TerminalMode::Raw),
    {
        match self {
            TerminalMode::Raw => true,
            TerminalMode::Normal => false,
        }
    }

    /// Records the outcome of asking the terminal for raw mode. A terminal
    /// that refused leaves the mode as it was and is an error.
    pub fn enable(&mut self, granted: bool) -> (result: Result<(), EditorError>)
        ensures
            *final(self) == old(self).after_enable(granted),
            granted ==> result == Ok::<(), EditorError>(()),
            !granted ==> result == Err::<(), EditorError>(EditorError::Terminal),
    {
        if granted {
            *self = TerminalMode::Raw;
            Ok(())
        } else {
            Err(EditorError::Terminal)
        }
    }

    /// Leaves raw mode. Returns whether the terminal has to be restored,
    /// which is so only if it was in raw mode; otherwise nothing happens.
    pub fn disable(&mut self) -> (restore: bool)
        ensures
            *final(self) == old(self).after_disable(),
            restore == old(self).needs_restore(),
    {
        let restore = self.is_raw();
        *self = TerminalMode::Normal;
        restore
    }
}

/// Leaving raw mode without being in it changes nothing and asks for
/// nothing, and so does leaving it a second time.
pub proof fn lemma_disable_idempotent(mode: TerminalMode)
    ensures
        !TerminalMode::Normal.needs_restore(),
        TerminalMode::Normal.after_disable() == TerminalMode::Normal,
        !mode.after_disable().needs_restore(),
        mode.after_disable().after_disable() == mode.after_disable(),
{
}

/// However often raw mode was entered, the terminal is restored once.
pub proof fn lemma_one_restore_suffices(mode: TerminalMode, first: bool, second: bool)
    ensures
        !mode.after_enable(first).after_enable(second).after_disable().needs_restore(),
{
}

} // verus!
