//! The control sequences that a frame is made of. They are produced by
//! `crossterm`, whose commands know how to write themselves as ANSI text.

use crate::text::decimal;
use vstd::prelude::*;

verus! {

/// The control sequence introducer: escape, then an opening square bracket.
pub open spec fn csi() -> Seq<char> {
    seq!['\u{1b}', '[']
}

/// The sequence that clears the whole screen.
pub open spec fn clear_all_code() -> Seq<char> {
    csi() + seq!['2', 'J']
}

/// The sequence that hides the cursor.
pub open spec fn hide_cursor_code() -> Seq<char> {
    csi() + seq!['?', '2', '5', 'l']
}

/// The sequence that shows the cursor.
pub open spec fn show_cursor_code() -> Seq<char> {
    csi() + seq!['?', '2', '5', 'h']
}

/// The sequence that moves the cursor to a cell, counted from zero. On the
/// wire both coordinates are counted from one, the row first.
pub open spec fn move_to_code(col: nat, row: nat) -> Seq<char> {
    csi() + decimal(row + 1) + seq![';'] + decimal(col + 1) + seq!['H']
}

/// Calls `write_ansi` of `crossterm::terminal::Clear(ClearType::All)` on an
/// empty string. The contract claims that the command writes the introducer
/// followed by `2J`, as its source does.
#[verifier::external_body]
pub(crate) fn clear_all() -> (code: Vec<char>)
    ensures
        code@ == clear_all_code(),
{
    let mut s = String::new();
    let command = crossterm::terminal::Clear(crossterm::terminal::ClearType::All);
    let _ = crossterm::Command::write_ansi(&command, &mut s);
    s.chars().collect()
}

/// Calls `write_ansi` of `crossterm::cursor::Hide` on an empty string. The
/// contract claims that the command writes the introducer followed by
/// `?25l`, as its source does.
#[verifier::external_body]
pub(crate) fn hide_cursor() -> (code: Vec<char>)
    ensures
        code@ == hide_cursor_code(),
{
    let mut s = String::new();
    let _ = crossterm::Command::write_ansi(&crossterm::cursor::Hide, &mut s);
    s.chars().collect()
}

/// Calls `write_ansi` of `crossterm::cursor::Show` on an empty string. The
/// contract claims that the command writes the introducer followed by
/// `?25h`, as its source does.
#[verifier::external_body]
pub(crate) fn show_cursor() -> (code: Vec<char>)
    ensures
        code@ == show_cursor_code(),
{
    let mut s = String::new();
    let _ = crossterm::Command::write_ansi(&crossterm::cursor::Show, &mut s);
    s.chars().collect()
}

/// Calls `write_ansi` of `crossterm::cursor::MoveTo(col, row)` on an empty
/// string. The command adds one to each coordinate, which is why neither may
/// be the largest `u16`, and formats the introducer, the row, a semicolon,
/// the column and `H`. The contract claims that the numbers are written in
/// decimal without padding, as `{}` formats a `u16`.
#[verifier::external_body]
pub(crate) fn move_to(col: u16, row: u16) -> (code: Vec<char>)
    requires
        col < u16::MAX,
        row < u16::MAX,
    ensures
        code@ == move_to_code(col as nat, row as nat),
{
    let mut s = String::new();
    let _ = crossterm::Command::write_ansi(&crossterm::cursor::MoveTo(col, row), &mut s);
    s.chars().collect()
}

} // verus!
