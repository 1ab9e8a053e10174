//! From keys to commands, and the states through which the editor quits.

use crate::buffer::{BufferModel, Direction};
use crate::reader::{
    backspace_char,
    decode_key,
    enter_char,
    escape_char,
    KeyCode,
    KeyEvent,
    Modifier,
    Modifiers,
    NavKey,
};
use crate::viewport::ViewportModel;
use vstd::prelude::*;

verus! {

/// What a key asks the editor to do.
#[derive(Clone, Copy, PartialEq, Eq, Structural, Debug)]
pub enum Command {
    /// Type a character.
    Insert(char),
    /// Break the line.
    Newline,
    /// Delete the character left of the cursor.
    DeleteBack,
    /// Delete the character at the cursor.
    DeleteForward,
    /// Move the cursor one step.
    Move(Direction),
    /// Go to the start of the line.
    Home,
    /// Go to the end of the line.
    End,
    /// Go up by the height of the window.
    PageUp,
    /// Go down by the height of the window.
    PageDown,
    /// Save the document.
    Save,
    /// Leave the editor.
    Quit,
    /// Nothing: the key has no meaning.
    Unknown,
}

/// Where the editor stands between running and having quit.
#[derive(Clone, Copy, PartialEq, Eq, Structural, Debug)]
pub enum EditorState {
    /// Editing.
    Running,
    /// The quit key was pressed over unsaved changes, and has to be pressed
    /// this many times more.
    ConfirmQuit(u32),
    /// Done.
    Terminated,
}

/// What the driver of the editor has to do after a step.
#[derive(Clone, Copy, PartialEq, Eq, Structural, Debug)]
pub enum Action {
    /// Draw and poll again.
    Continue,
    /// Write the document to its file and report how that went.
    Save,
    /// Stop.
    Quit,
}

/// The command of a character that is typed: Enter breaks the line,
/// Backspace deletes to the left, Escape has no meaning, and any other
/// character is inserted.
pub open spec fn typed(c: char) -> Command {
    if c == enter_char() {
        Command::Newline
    } else if c == backspace_char() {
        Command::DeleteBack
    } else if c == escape_char() {
        Command::Unknown
    } else {
        Command::Insert(c)
    }
}

/// The command of a key. A `q` with no modifier held quits; every other
/// character without a modifier, and every character with Shift alone, is
/// typed. Control with `s` saves and Control with `h` deletes to the left;
/// every other key with Control or Alt has no meaning.
pub open spec fn command_of(key: KeyEvent) -> Command {
    match key {
        KeyEvent::Char(c, Modifier::Plain) => if c == 'q' {
            Command::Quit
        } else {
            typed(c)
        },
        KeyEvent::Char(c, Modifier::Shift) => typed(c),
        KeyEvent::Char(c, Modifier::Ctrl) => if c == 's' {
            Command::Save
        } else if c == 'h' {
            Command::DeleteBack
        } else {
            Command::Unknown
        },
        KeyEvent::Char(_, Modifier::Alt) => Command::Unknown,
        KeyEvent::Arrow(direction) => Command::Move(direction),
        KeyEvent::Nav(NavKey::Home) => Command::Home,
        KeyEvent::Nav(NavKey::End) => Command::End,
        KeyEvent::Nav(NavKey::PageUp) => Command::PageUp,
        KeyEvent::Nav(NavKey::PageDown) => Command::PageDown,
        KeyEvent::Nav(NavKey::Delete) => Command::DeleteForward,
        KeyEvent::Unrecognized => Command::Unknown,
    }
}

/// The command of a character that is typed.
fn typed_command(c: char) -> (command: Command)
    ensures
        command == typed(c),
{
    if c == '\r' {
        Command::Newline
    } else if c == '\u{7f}' {
        Command::DeleteBack
    } else if c == '\u{1b}' {
        Command::Unknown
    } else {
        Command::Insert(c)
    }
}

/// Maps a key to its command.
pub fn dispatch(key: KeyEvent) -> (command: Command)
    ensures
        command == command_of(key),
{
    match key {
        KeyEvent::Char(c, Modifier::Plain) => if c == 'q' {
            Command::Quit
        } else {
            typed_command(c)
        },
        KeyEvent::Char(c, Modifier::Shift) => typed_command(c),
        KeyEvent::Char(c, Modifier::Ctrl) => if c == 's' {
            Command::Save
        } else if c == 'h' {
            Command::DeleteBack
        } else {
            Command::Unknown
        },
        KeyEvent::Char(_, Modifier::Alt) => Command::Unknown,
        KeyEvent::Arrow(direction) => Command::Move(direction),
        KeyEvent::Nav(NavKey::Home) => Command::Home,
        KeyEvent::Nav(NavKey::End) => Command::End,
        KeyEvent::Nav(NavKey::PageUp) => Command::PageUp,
        KeyEvent::Nav(NavKey::PageDown) => Command::PageDown,
        KeyEvent::Nav(NavKey::Delete) => Command::DeleteForward,
        KeyEvent::Unrecognized => Command::Unknown,
    }
}

/// The document after a command. The window gives the height of a page.
pub open spec fn edit_buffer(b: BufferModel, v: ViewportModel, command: Command) -> BufferModel {
    match command {
        Command::Insert(c) => b.insert_char(c),
        Command::Newline => b.insert_newline(),
        Command::DeleteBack => b.delete_char(),
        Command::DeleteForward => b.delete_forward(),
        Command::Move(direction) => b.move_cursor(direction),
        Command::Home => b.move_to(0, b.cy),
        Command::End => b.move_to(b.row_len(b.cy), b.cy),
        Command::PageUp => b.move_to(
            b.cx,
            if b.cy >= v.screenrows {
                b.cy - v.screenrows
            } else {
                0
            },
        ),
        Command::PageDown => b.move_to(b.cx, b.cy + v.screenrows),
        Command::Save => b,
        Command::Quit => b,
        Command::Unknown => b,
    }
}

/// The state after a command. Quitting a document without unsaved changes
/// ends the editor at once. Over unsaved changes the quit command has to be
/// given `quit_times` more times in a row; any other command in between
/// takes the editor back to running.
pub open spec fn next_state(
    state: EditorState,
    command: Command,
    dirty: bool,
    quit_times: u32,
) -> EditorState {
    match state {
        EditorState::Terminated => EditorState::Terminated,
        EditorState::Running => if command == Command::Quit {
            if dirty && quit_times > 0 {
                EditorState::ConfirmQuit(quit_times)
            } else {
                EditorState::Terminated
            }
        } else {
            EditorState::Running
        },
        EditorState::ConfirmQuit(left) => if command == Command::Quit {
            if left > 1 {
                EditorState::ConfirmQuit((left - 1) as u32)
            } else {
                EditorState::Terminated
            }
        } else {
            EditorState::Running
        },
    }
}

impl EditorState {
    /// The state after a command.
    pub fn next(self, command: Command, dirty: bool, quit_times: u32) -> (state: EditorState)
        ensures
            state == next_state(self, command, dirty, quit_times),
    {
        let quit = match command {
            Command::Quit => true,
            _ => false,
        };
        match self {
            EditorState::Terminated => EditorState::Terminated,
            EditorState::Running => if quit {
                if dirty && quit_times > 0 {
                    EditorState::ConfirmQuit(quit_times)
                } else {
                    EditorState::Terminated
                }
            } else {
                EditorState::Running
            },
            EditorState::ConfirmQuit(left) => if quit {
                if left > 1 {
                    EditorState::ConfirmQuit(left - 1)
                } else {
                    EditorState::Terminated
                }
            } else {
                EditorState::Running
            },
        }
    }

    /// Whether the editor has quit.
    pub fn is_terminated(&self) -> (done: bool)
        ensures
            done == (*self == EditorState::Terminated),
    {
        match self {
            EditorState::Terminated => true,
            _ => false,
        }
    }
}

/// The state after the quit command was given `presses` times in a row.
pub open spec fn after_quits(
    state: EditorState,
    dirty: bool,
    quit_times: u32,
    presses: nat,
) -> EditorState
    decreases presses,
{
    if presses == 0 {
        state
    } else {
        next_state(
            after_quits(state, dirty, quit_times, (presses - 1) as nat),
            Command::Quit,
            dirty,
            quit_times,
        )
    }
}

/// Over unsaved changes the editor quits at the press that follows
/// `quit_times` presses of the quit key, and not before.
pub proof fn lemma_unsaved_quit_takes_every_press(quit_times: u32, presses: nat)
    requires
        presses <= quit_times + 1,
    ensures
        presses == 0 ==> after_quits(EditorState::Running, true, quit_times, presses)
            == EditorState::Running,
        1 <= presses <= quit_times ==> after_quits(EditorState::Running, true, quit_times, presses)
            == EditorState::ConfirmQuit((quit_times - presses + 1) as u32),
        presses == quit_times + 1 ==> after_quits(EditorState::Running, true, quit_times, presses)
            == EditorState::Terminated,
    decreases presses,
{
    if presses > 0 {
        lemma_unsaved_quit_takes_every_press(quit_times, (presses - 1) as nat);
    }
}

/// Any command but quit takes the editor back to running, so that the quit
/// key has to be pressed all over again.
pub proof fn lemma_other_command_resets(
    state: EditorState,
    command: Command,
    dirty: bool,
    quit_times: u32,
)
    requires
        state != EditorState::Terminated,
        command != Command::Quit,
    ensures
        next_state(state, command, dirty, quit_times) == EditorState::Running,
{
}

/// Without unsaved changes one press of the quit key ends the editor.
pub proof fn lemma_clean_quit_is_immediate(quit_times: u32)
    ensures
        next_state(EditorState::Running, Command::Quit, false, quit_times)
            == EditorState::Terminated,
{
}

/// Only a `q` pressed with no modifier key held quits: whatever else the
/// terminal reports, with whatever modifiers, stands for another command.
pub proof fn lemma_only_plain_q_quits(code: KeyCode, modifiers: Modifiers)
    ensures
        command_of(decode_key(code, modifiers)) == Command::Quit <==> code == KeyCode::Char('q')
            && modifiers.none(),
{
}

/// Every command leaves the cursor in range.
pub proof fn lemma_edit_buffer_wf(b: BufferModel, v: ViewportModel, command: Command)
    requires
        b.wf(),
        v.wf(),
    ensures
        edit_buffer(b, v, command).wf(),
{
}

} // verus!
