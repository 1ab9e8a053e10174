//! The editor: the document with its window and its message, the renderer,
//! and the commands that keys stand for.
//!
//! The editor is driven from outside. Its driver switches the terminal,
//! polls it, writes the frames and the file; the editor decides.

pub mod config;
pub mod dispatch;
pub mod laws;
pub mod output;

use crate::buffer::{BufferModel, DocumentBuffer};
use crate::editor::config::{Config, ConfigModel, MESSAGE_LIFETIME, QUIT_TIMES};
use crate::editor::dispatch::{
    command_of,
    dispatch,
    edit_buffer,
    next_state,
    Action,
    Command,
    EditorState,
};
use crate::editor::output::Output;
use crate::error::EditorError;
use crate::reader::{decode, InputEvent, KeyEvent, Modifier, Reader};
use crate::terminal::TerminalMode;
use crate::text::{decimal, lines_view, push_decimal, push_str};
use crate::viewport::{Viewport, ViewportModel, BAR_ROWS};
use vstd::prelude::*;

verus! {

/// The width of the window of an editor that was not told the size of its
/// terminal.
pub const DEFAULT_COLS: u16 = 80;

/// The height of the terminal of an editor that was not told.
pub const DEFAULT_ROWS: u16 = 24;

/// The message that asks for the quit key again.
pub open spec fn quit_warning(left: u32) -> Seq<char> {
    "Unsaved changes. Press q "@ + decimal(left as nat) + " more times to quit."@
}

/// The message after a save that wrote `written` characters.
pub open spec fn saved_notice(written: nat) -> Seq<char> {
    decimal(written) + " characters written"@
}

/// The value of an editor.
pub struct EditorModel {
    pub config: ConfigModel,
    pub state: EditorState,
    pub mode: TerminalMode,
}

impl EditorModel {
    /// A running editor on an empty document of one line without a name,
    /// seen from its top left through a window of the default size, with no
    /// message, the usual settings, and the terminal not in raw mode.
    pub open spec fn initial() -> EditorModel {
        EditorModel {
            config: ConfigModel {
                buffer: BufferModel { rows: seq![Seq::<char>::empty()], cx: 0, cy: 0, dirty: 0 },
                name: None,
                viewport: ViewportModel {
                    rowoff: 0,
                    coloff: 0,
                    screenrows: DEFAULT_ROWS - BAR_ROWS,
                    screencols: DEFAULT_COLS as int,
                },
                message: Seq::empty(),
                message_time: 0,
                quit_times: QUIT_TIMES,
                message_lifetime: MESSAGE_LIFETIME,
            },
            state: EditorState::Running,
            mode: TerminalMode::Normal,
        }
    }

    /// The message, if any, that a command leaves in the message bar, given
    /// the state that the command led to.
    pub open spec fn notice(self, command: Command, state: EditorState) -> Option<Seq<char>> {
        match command {
            Command::Quit => match state {
                EditorState::ConfirmQuit(left) => Some(quit_warning(left)),
                _ => None,
            },
            Command::Save => if self.config.name.is_none() {
                Some("No file name"@)
            } else {
                None
            },
            Command::Unknown => Some("Unrecognized key"@),
            _ => None,
        }
    }

    /// The editor with a new message, or with the one it had.
    pub open spec fn with_notice(self, notice: Option<Seq<char>>, now: int) -> EditorModel {
        match notice {
            Some(text) => EditorModel {
                config: ConfigModel { message: text, message_time: now, ..self.config },
                ..self
            },
            None => self,
        }
    }

    /// The editor after a key. The document changes as the command of the
    /// key says, the window follows the cursor, and the state moves on. An
    /// editor that has quit takes no key.
    pub open spec fn step(self, key: KeyEvent, now: int) -> EditorModel {
        if self.state == EditorState::Terminated {
            self
        } else {
            let command = command_of(key);
            let buffer = edit_buffer(self.config.buffer, self.config.viewport, command);
            let state = next_state(
                self.state,
                command,
                self.config.buffer.dirty > 0,
                self.config.quit_times,
            );
            let moved = EditorModel {
                config: ConfigModel {
                    buffer,
                    viewport: self.config.viewport.scroll(buffer.cy, buffer.rx() as int),
                    ..self.config
                },
                state,
                mode: self.mode,
            };
            moved.with_notice(self.notice(command, state), now)
        }
    }

    /// What the driver has to do after a key.
    pub open spec fn action(self, key: KeyEvent) -> Action {
        if self.step(key, 0).state == EditorState::Terminated {
            Action::Quit
        } else if command_of(key) == Command::Save && self.config.name.is_some() {
            Action::Save
        } else {
            Action::Continue
        }
    }

    /// What the driver has to do when no key came.
    pub open spec fn idle_action(self) -> Action {
        if self.state == EditorState::Terminated {
            Action::Quit
        } else {
            Action::Continue
        }
    }

    /// The editor after one poll of the terminal: a failure ends it, a key
    /// is acted on, anything else leaves it as it is.
    pub open spec fn feed(
        self,
        input: Result<Option<InputEvent>, EditorError>,
        now: int,
    ) -> EditorModel {
        match input {
            Err(_) => EditorModel { state: EditorState::Terminated, ..self },
            Ok(event) => match decode(event) {
                Some(key) => self.step(key, now),
                None => self,
            },
        }
    }

    /// What `run` returns for one poll of the terminal.
    pub open spec fn outcome(self, input: Result<Option<InputEvent>, EditorError>) -> Result<
        Action,
        EditorError,
    > {
        match input {
            Err(e) => Err(e),
            Ok(event) => match decode(event) {
                Some(key) => Ok(self.action(key)),
                None => Ok(self.idle_action()),
            },
        }
    }

    /// The editor after its driver reported on a save: the number of
    /// characters written, or nothing where writing failed.
    pub open spec fn save_finished(self, written: Option<usize>, now: int) -> EditorModel {
        match written {
            Some(n) => EditorModel {
                config: ConfigModel {
                    buffer: self.config.buffer.saved(),
                    message: saved_notice(n as nat),
                    message_time: now,
                    ..self.config
                },
                ..self
            },
            None => EditorModel {
                config: ConfigModel {
                    message: "Can't save! I/O error"@,
                    message_time: now,
                    ..self.config
                },
                ..self
            },
        }
    }

    /// The editor with another document, the cursor at its start.
    pub open spec fn open(self, rows: Seq<Seq<char>>, name: Option<Seq<char>>) -> EditorModel {
        EditorModel {
            config: ConfigModel {
                buffer: BufferModel { rows, cx: 0, cy: 0, dirty: 0 },
                name,
                viewport: self.config.viewport.scroll(0, 0),
                ..self.config
            },
            ..self
        }
    }

    /// The editor in a terminal of another size.
    pub open spec fn resize(self, cols: int, rows: int) -> EditorModel {
        EditorModel {
            config: ConfigModel {
                viewport: self.config.viewport.resize(cols, rows).scroll(
                    self.config.buffer.cy,
                    self.config.buffer.rx() as int,
                ),
                ..self.config
            },
            ..self
        }
    }
}

/// The editor.
pub struct Editor {
    reader: Reader,
    output: Output,
    config: Config,
    state: EditorState,
    mode: TerminalMode,
}

impl View for Editor {
    type V = EditorModel;

    closed spec fn view(&self) -> EditorModel {
        EditorModel { config: self.config@, state: self.state, mode: self.mode }
    }
}

impl Editor {
    /// Nothing that the document derives is stale.
    pub closed spec fn derived_ok(&self) -> bool {
        self.config.buffer.derived_ok()
    }

    /// The cursor is in range, the window shows it, and nothing derived is
    /// stale.
    pub open spec fn wf(&self) -> bool {
        self@.config.wf() && self.derived_ok()
    }

    /// An editor on an empty document of one line, in a terminal of the
    /// default size that is not in raw mode.
    pub fn new() -> (editor: Editor)
        ensures
            editor.wf(),
            editor@ == EditorModel::initial(),
    {
        let viewport = Viewport::new(DEFAULT_COLS, DEFAULT_ROWS).unwrap();
        Editor {
            reader: Reader,
            output: Output::new(),
            config: Config::new(DocumentBuffer::new(), viewport),
            state: EditorState::Running,
            mode: TerminalMode::Normal,
        }
    }

    /// Replaces the document by the given lines.
    pub fn open(&mut self, lines: &Vec<Vec<char>>, filename: Option<Vec<char>>)
        requires
            old(self).wf(),
        ensures
            final(self).wf(),
            final(self)@ == old(self)@.open(
                lines_view(lines@),
                match filename {
                    Some(name) => Some(name@),
                    None => None,
                },
            ),
    {
        self.config.buffer = DocumentBuffer::from_lines(lines, filename);
        self.config.viewport.scroll(&self.config.buffer);
        proof {
            if lines@.len() > 0 {
                assert(lines_view(lines@)[0].take(0) =~= Seq::<char>::empty());
            }
        }
    }

    /// Takes over a new size of the terminal and returns whether it did; a
    /// terminal without room for the text leaves the window as it was.
    pub fn resize(&mut self, cols: u16, rows: u16) -> (resized: bool)
        requires
            old(self).wf(),
        ensures
            final(self).wf(),
            final(self)@ == old(self)@.resize(cols as int, rows as int),
            resized == (cols >= 1 && rows > BAR_ROWS),
    {
        let resized = self.config.viewport.resize(cols, rows);
        self.config.viewport.scroll(&self.config.buffer);
        resized
    }

    /// Records the outcome of asking the terminal for raw mode. A terminal
    /// that refused is an error and leaves the mode as it was.
    pub fn enable_raw_mode(&mut self, granted: bool) -> (result: Result<(), EditorError>)
        ensures
            final(self)@ == (EditorModel {
                mode: old(self)@.mode.after_enable(granted),
                ..old(self)@
            }),
            final(self).derived_ok() == old(self).derived_ok(),
            granted ==> result == Ok::<(), EditorError>(()),
            !granted ==> result == Err::<(), EditorError>(EditorError::Terminal),
    {
        self.mode.enable(granted)
    }

    /// Leaves raw mode. Returns whether the terminal has to be restored,
    /// which is so only if the editor had it in raw mode.
    pub fn disable_raw_mode(&mut self) -> (restore: bool)
        ensures
            final(self)@ == (EditorModel { mode: TerminalMode::Normal, ..old(self)@ }),
            final(self).derived_ok() == old(self).derived_ok(),
            restore == old(self)@.mode.needs_restore(),
    {
        self.mode.disable()
    }

    /// Sets how often the quit key has to be pressed again over unsaved
    /// changes. Presses already counted stay counted.
    pub fn set_quit_times(&mut self, quit_times: u32)
        ensures
            final(self)@ == (EditorModel {
                config: ConfigModel { quit_times, ..old(self)@.config },
                ..old(self)@
            }),
            final(self).derived_ok() == old(self).derived_ok(),
    {
        self.config.quit_times = quit_times;
    }

    /// Sets how long a status message is shown, in the unit in which the
    /// caller counts time.
    pub fn set_message_lifetime(&mut self, message_lifetime: u64)
        ensures
            final(self)@ == (EditorModel {
                config: ConfigModel { message_lifetime, ..old(self)@.config },
                ..old(self)@
            }),
            final(self).derived_ok() == old(self).derived_ok(),
    {
        self.config.message_lifetime = message_lifetime;
    }

    /// The state of the editor.
    pub fn state(&self) -> (state: EditorState)
        ensures
            state == self@.state,
    {
        self.state
    }

    /// The mode in which the editor holds the terminal.
    pub fn mode(&self) -> (mode: TerminalMode)
        ensures
            mode == self@.mode,
    {
        self.mode
    }

    /// The document, the window and the message.
    pub fn config(&self) -> (config: &Config)
        ensures
            config@ == self@.config,
            config.buffer.derived_ok() == self.derived_ok(),
    {
        &self.config
    }

    /// The document as one text, as it is to be written to its file.
    pub fn content(&self) -> (text: Vec<char>)
        ensures
            text@ == self@.config.buffer.text(),
    {
        self.config.buffer.serialize()
    }

    /// Composes the frame that shows the editor at `now`.
    pub fn refresh_screen(&self, now: u64) -> (frame: Vec<char>)
        requires
            self.wf(),
        ensures
            frame@ == crate::editor::output::frame(self@.config, now as int),
    {
        self.output.refresh_screen(&self.config, now)
    }

    /// Sets the message of the message bar.
    fn set_notice(&mut self, text: Vec<char>, now: u64)
        ensures
            final(self)@ == old(self)@.with_notice(Some(text@), now as int),
            final(self).derived_ok() == old(self).derived_ok(),
    {
        self.config.status.set(text, now);
    }

    /// Acts on one key and says what the driver has to do next.
    pub fn process_keypress(&mut self, key: KeyEvent, now: u64) -> (action: Action)
        requires
            old(self).wf(),
        ensures
            final(self).wf(),
            final(self)@ == old(self)@.step(key, now as int),
            action == old(self)@.action(key),
    {
        if self.state.is_terminated() {
            return Action::Quit;
        }
        let command = dispatch(key);
        let state = self.state.next(command, self.config.buffer.dirty() > 0, self.config.quit_times);
        let mut action = Action::Continue;
        let page = self.config.viewport.screenrows() as usize;
        let cx = self.config.buffer.cx();
        let cy = self.config.buffer.cy();
        let n = self.config.buffer.num_rows();
        match command {
            Command::Insert(c) => {
                self.config.buffer.insert_char(c);
            },
            Command::Newline => {
                self.config.buffer.insert_newline();
            },
            Command::DeleteBack => {
                self.config.buffer.delete_char();
            },
            Command::DeleteForward => {
                self.config.buffer.delete_forward();
            },
            Command::Move(direction) => {
                let _ = self.config.buffer.move_cursor(direction);
            },
            Command::Home => {
                self.config.buffer.move_to(0, cy);
            },
            Command::End => {
                let len = if cy < n {
                    self.config.buffer.row(cy).len()
                } else {
                    0
                };
                self.config.buffer.move_to(len, cy);
            },
            Command::PageUp => {
                self.config.buffer.move_to(
                    cx,
                    if cy >= page {
                        cy - page
                    } else {
                        0
                    },
                );
            },
            Command::PageDown => {
                self.config.buffer.move_to(
                    cx,
                    if cy <= usize::MAX - page {
                        cy + page
                    } else {
                        usize::MAX
                    },
                );
            },
            Command::Save => {
                if self.config.buffer.filename().is_some() {
                    action = Action::Save;
                }
            },
            Command::Quit => {},
            Command::Unknown => {},
        }
        self.config.viewport.scroll(&self.config.buffer);
        self.state = state;
        if state.is_terminated() {
            action = Action::Quit;
        }
        let ghost moved = self@;
        proof {
            assert(moved == (EditorModel {
                config: ConfigModel {
                    buffer: self.config.buffer@,
                    viewport: old(self)@.config.viewport.scroll(
                        self.config.buffer@.cy,
                        self.config.buffer@.rx() as int,
                    ),
                    ..old(self)@.config
                },
                state,
                mode: old(self)@.mode,
            }));
            assert(action == old(self)@.action(key));
        }
        match command {
            Command::Quit => {
                if let EditorState::ConfirmQuit(left) = state {
                    let mut text: Vec<char> = Vec::new();
                    push_str(&mut text, "Unsaved changes. Press q ");
                    push_decimal(&mut text, left as u128);
                    push_str(&mut text, " more times to quit.");
                    proof {
                        assert(text@ =~= quit_warning(left));
                    }
                    self.set_notice(text, now);
                }
            },
            Command::Save => {
                if self.config.buffer.filename().is_none() {
                    let mut text: Vec<char> = Vec::new();
                    push_str(&mut text, "No file name");
                    proof {
                        assert(text@ =~= "No file name"@);
                    }
                    self.set_notice(text, now);
                }
            },
            Command::Unknown => {
                let mut text: Vec<char> = Vec::new();
                push_str(&mut text, "Unrecognized key");
                proof {
                    assert(text@ =~= "Unrecognized key"@);
                }
                self.set_notice(text, now);
            },
            _ => {},
        }
        action
    }

    /// Acts on what one poll of the terminal brought: a failure of the
    /// poll, which ends the editor and is handed back; a key; or nothing.
    pub fn run(&mut self, input: Result<Option<InputEvent>, EditorError>, now: u64) -> (result:
        Result<Action, EditorError>)
        requires
            old(self).wf(),
        ensures
            final(self).wf(),
            final(self)@ == old(self)@.feed(input, now as int),
            result == old(self)@.outcome(input),
    {
        match input {
            Err(e) => {
                self.state = EditorState::Terminated;
                Err(e)
            },
            Ok(event) => match self.reader.read_key(event) {
                Some(key) => Ok(self.process_keypress(key, now)),
                None => if self.state.is_terminated() {
                    Ok(Action::Quit)
                } else {
                    Ok(Action::Continue)
                },
            },
        }
    }

    /// Takes the driver's report on a save: the number of characters
    /// written, or nothing where writing failed. A save that went through
    /// leaves no unsaved changes.
    pub fn save_finished(&mut self, written: Option<usize>, now: u64)
        requires
            old(self).wf(),
        ensures
            final(self).wf(),
            final(self)@ == old(self)@.save_finished(written, now as int),
    {
        let mut text: Vec<char> = Vec::new();
        match written {
            Some(n) => {
                self.config.buffer.mark_saved();
                push_decimal(&mut text, n as u128);
                push_str(&mut text, " characters written");
                proof {
                    assert(text@ =~= saved_notice(n as nat));
                }
            },
            None => {
                push_str(&mut text, "Can't save! I/O error");
                proof {
                    assert(text@ =~= "Can't save! I/O error"@);
                }
            },
        }
        self.config.status.set(text, now);
    }
}

} // verus!
