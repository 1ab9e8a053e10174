//! From what the terminal reports to the keys that the editor knows.

use crate::buffer::Direction;
use vstd::prelude::*;

verus! {

/// The key of a key press, as the terminal reports it.
#[derive(Clone, Copy, PartialEq, Eq, Structural, Debug)]
pub enum KeyCode {
    Char(char),
    Enter,
    Backspace,
    Tab,
    Esc,
    Up,
    Down,
    Left,
    Right,
    Home,
    End,
    PageUp,
    PageDown,
    Delete,
    /// Any key that the editor has no use for.
    Other,
}

/// The modifier keys held during a key press.
#[derive(Clone, Copy, PartialEq, Eq, Structural, Debug)]
pub struct Modifiers {
    pub shift: bool,
    pub ctrl: bool,
    pub alt: bool,
    pub super_key: bool,
    pub hyper: bool,
    pub meta: bool,
}

impl Modifiers {
    /// Whether no modifier key is held.
    pub open spec fn none(self) -> bool {
        !self.shift && !self.ctrl && !self.alt && !self.super_key && !self.hyper && !self.meta
    }
}

/// What the terminal reports.
#[derive(Clone, Copy, PartialEq, Eq, Structural, Debug)]
pub enum InputEvent {
    /// A key event, with the modifier keys held at the time.
    Key { code: KeyCode, modifiers: Modifiers },
    /// Anything else: a change of size, the mouse, the focus, a sequence
    /// that the terminal layer could not make sense of.
    Other,
}

/// The modifier of a character key.
#[derive(Clone, Copy, PartialEq, Eq, Structural, Debug)]
pub enum Modifier {
    /// No modifier key was held.
    Plain,
    /// Shift alone.
    Shift,
    /// Control, with or without Shift.
    Ctrl,
    /// Alt, with or without Shift.
    Alt,
}

/// The keys that move the cursor far, and the key that deletes forward.
#[derive(Clone, Copy, PartialEq, Eq, Structural, Debug)]
pub enum NavKey {
    Home,
    End,
    PageUp,
    PageDown,
    Delete,
}

/// A key as the editor understands it.
#[derive(Clone, Copy, PartialEq, Eq, Structural, Debug)]
pub enum KeyEvent {
    /// A character, with its modifier.
    Char(char, Modifier),
    /// An arrow key.
    Arrow(Direction),
    /// A navigation key.
    Nav(NavKey),
    /// A key without a meaning.
    Unrecognized,
}

/// Carriage return, the character of the Enter key.
pub open spec fn enter_char() -> char {
    '\r'
}

/// Delete, the character of the Backspace key.
pub open spec fn backspace_char() -> char {
    '\u{7f}'
}

/// The character of the Escape key.
pub open spec fn escape_char() -> char {
    '\u{1b}'
}

/// A character key with the modifiers held. A key with Super, Hyper or
/// Meta has no meaning, nor has one with Control and Alt together. A
/// character is plain only if no modifier at all was held.
pub open spec fn char_key(c: char, modifiers: Modifiers) -> KeyEvent {
    if modifiers.super_key || modifiers.hyper || modifiers.meta {
        KeyEvent::Unrecognized
    } else if modifiers.ctrl && modifiers.alt {
        KeyEvent::Unrecognized
    } else if modifiers.ctrl {
        KeyEvent::Char(c, Modifier::Ctrl)
    } else if modifiers.alt {
        KeyEvent::Char(c, Modifier::Alt)
    } else if modifiers.shift {
        KeyEvent::Char(c, Modifier::Shift)
    } else {
        KeyEvent::Char(c, Modifier::Plain)
    }
}

/// The key that a key press stands for. The keys that a raw terminal sends
/// as one byte are characters: Enter, Backspace, Tab and Escape.
pub open spec fn decode_key(code: KeyCode, modifiers: Modifiers) -> KeyEvent {
    match code {
        KeyCode::Char(c) => char_key(c, modifiers),
        KeyCode::Enter => char_key(enter_char(), modifiers),
        KeyCode::Backspace => char_key(backspace_char(), modifiers),
        KeyCode::Tab => char_key('\t', modifiers),
        KeyCode::Esc => char_key(escape_char(), modifiers),
        KeyCode::Up => KeyEvent::Arrow(Direction::Up),
        KeyCode::Down => KeyEvent::Arrow(Direction::Down),
        KeyCode::Left => KeyEvent::Arrow(Direction::Left),
        KeyCode::Right => KeyEvent::Arrow(Direction::Right),
        KeyCode::Home => KeyEvent::Nav(NavKey::Home),
        KeyCode::End => KeyEvent::Nav(NavKey::End),
        KeyCode::PageUp => KeyEvent::Nav(NavKey::PageUp),
        KeyCode::PageDown => KeyEvent::Nav(NavKey::PageDown),
        KeyCode::Delete => KeyEvent::Nav(NavKey::Delete),
        KeyCode::Other => KeyEvent::Unrecognized,
    }
}

/// The key, if any, in what one poll of the terminal brought: nothing when
/// the poll timed out, nothing for an event that is no key press.
pub open spec fn decode(input: Option<InputEvent>) -> Option<KeyEvent> {
    match input {
        Some(InputEvent::Key { code, modifiers }) => Some(decode_key(code, modifiers)),
        Some(InputEvent::Other) => None,
        None => None,
    }
}

/// The decoder of keys.
pub struct Reader;

impl Reader {
    fn char_key(c: char, modifiers: Modifiers) -> (key: KeyEvent)
        ensures
            key == char_key(c, modifiers),
    {
        if modifiers.super_key || modifiers.hyper || modifiers.meta {
            KeyEvent::Unrecognized
        } else if modifiers.ctrl && modifiers.alt {
            KeyEvent::Unrecognized
        } else if modifiers.ctrl {
            KeyEvent::Char(c, Modifier::Ctrl)
        } else if modifiers.alt {
            KeyEvent::Char(c, Modifier::Alt)
        } else if modifiers.shift {
            KeyEvent::Char(c, Modifier::Shift)
        } else {
            KeyEvent::Char(c, Modifier::Plain)
        }
    }

    /// Decodes what one poll of the terminal brought. `None` stands for a
    /// poll that timed out; the result is `None` when there is no key to act
    /// on, so that the caller can do its idle work and poll again.
    pub fn read_key(&self, input: Option<InputEvent>) -> (key: Option<KeyEvent>)
        ensures
            key == decode(input),
    {
        match input {
            Some(InputEvent::Key { code, modifiers }) => Some(
                match code {
                    KeyCode::Char(c) => Reader::char_key(c, modifiers),
                    KeyCode::Enter => Reader::char_key('\r', modifiers),
                    KeyCode::Backspace => Reader::char_key('\u{7f}', modifiers),
                    KeyCode::Tab => Reader::char_key('\t', modifiers),
                    KeyCode::Esc => Reader::char_key('\u{1b}', modifiers),
                    KeyCode::Up => KeyEvent::Arrow(Direction::Up),
                    KeyCode::Down => KeyEvent::Arrow(Direction::Down),
                    KeyCode::Left => KeyEvent::Arrow(Direction::Left),
                    KeyCode::Right => KeyEvent::Arrow(Direction::Right),
                    KeyCode::Home => KeyEvent::Nav(NavKey::Home),
                    KeyCode::End => KeyEvent::Nav(NavKey::End),
                    KeyCode::PageUp => KeyEvent::Nav(NavKey::PageUp),
                    KeyCode::PageDown => KeyEvent::Nav(NavKey::PageDown),
                    KeyCode::Delete => KeyEvent::Nav(NavKey::Delete),
                    KeyCode::Other => KeyEvent::Unrecognized,
                },
            ),
            Some(InputEvent::Other) => None,
            None => None,
        }
    }
}

} // verus!
