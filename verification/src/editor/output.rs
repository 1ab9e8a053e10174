//! The renderer. It composes one frame, the text that redraws the whole
//! screen, and leaves it to the caller to write the frame in one piece.

use crate::ansi;
use crate::ansi::{clear_all_code, hide_cursor_code, move_to_code, show_cursor_code};
use crate::editor::config::{Config, ConfigModel};
use crate::row::expand_tabs;
use crate::text::{decimal, push_chars, push_decimal, push_spaces, push_str, spaces};
use vstd::prelude::*;

verus! {

/// The number of characters of the file name that the status bar shows.
pub const NAME_WIDTH: usize = 20;

/// The end of a line of the frame.
pub open spec fn line_break() -> Seq<char> {
    seq!['\r', '\n']
}

/// The part of a drawn line that lies in the window: from column `coloff`,
/// at most `width` columns, and never more than the line has.
pub open spec fn window(render: Seq<char>, coloff: int, width: int) -> Seq<char> {
    let start = if coloff <= render.len() {
        coloff
    } else {
        render.len() as int
    };
    let end = if start + width <= render.len() {
        start + width
    } else {
        render.len() as int
    };
    render.subrange(start, end)
}

/// A text brought to exactly `width` columns: cut where it is longer,
/// filled with spaces where it is shorter.
pub open spec fn fit(s: Seq<char>, width: int) -> Seq<char> {
    if s.len() >= width {
        s.take(width)
    } else {
        s + spaces((width - s.len()) as nat)
    }
}

/// Line `y` of the drawing area: the visible part of the document's line
/// behind it, or a tilde where the document has ended.
pub open spec fn text_line(c: ConfigModel, y: int) -> Seq<char> {
    let r = c.viewport.rowoff + y;
    if r < c.buffer.rows.len() {
        fit(
            window(expand_tabs(c.buffer.rows[r]), c.viewport.coloff, c.viewport.screencols),
            c.viewport.screencols,
        )
    } else {
        fit(seq!['~'], c.viewport.screencols)
    }
}

/// The first `n` lines of the drawing area, each with its line break.
pub open spec fn text_lines(c: ConfigModel, n: int) -> Seq<char>
    decreases n,
{
    if n <= 0 {
        Seq::empty()
    } else {
        text_lines(c, n - 1) + text_line(c, n - 1) + line_break()
    }
}

/// The file name as the status bar shows it.
pub open spec fn shown_name(name: Option<Seq<char>>) -> Seq<char> {
    match name {
        Some(n) => if n.len() <= NAME_WIDTH {
            n
        } else {
            n.take(NAME_WIDTH as int)
        },
        None => "[No Name]"@,
    }
}

/// The left part of the status bar: the file name, the number of lines,
/// and a mark where there are unsaved changes.
pub open spec fn status_left(c: ConfigModel) -> Seq<char> {
    shown_name(c.name) + " - "@ + decimal(c.buffer.rows.len()) + " lines"@ + if c.buffer.dirty > 0 {
        " (modified)"@
    } else {
        Seq::empty()
    }
}

/// The right part of the status bar: the line of the cursor, counted from
/// one, and the number of lines.
pub open spec fn status_right(c: ConfigModel) -> Seq<char> {
    decimal((c.buffer.cy + 1) as nat) + "/"@ + decimal(c.buffer.rows.len())
}

/// A bar of `width` columns with `left` at its start and `right` at its
/// end. The left part is cut to the bar; the right part is left out where
/// the rest of the bar has no room for it.
pub open spec fn bar(left: Seq<char>, right: Seq<char>, width: int) -> Seq<char> {
    let l = if left.len() <= width {
        left
    } else {
        left.take(width)
    };
    if l.len() + right.len() <= width {
        l + spaces((width - l.len() - right.len()) as nat) + right
    } else {
        fit(l, width)
    }
}

/// The status bar.
pub open spec fn status_bar(c: ConfigModel) -> Seq<char> {
    bar(status_left(c), status_right(c), c.viewport.screencols)
}

/// The message bar at `now`.
pub open spec fn message_bar(c: ConfigModel, now: int) -> Seq<char> {
    fit(c.shown_message(now), c.viewport.screencols)
}

/// The sequence that clears the screen and puts the cursor at its top left.
pub open spec fn clear_screen_code() -> Seq<char> {
    clear_all_code() + move_to_code(0, 0)
}

/// The sequence that puts the terminal's cursor where the document's
/// cursor is seen through the window.
pub open spec fn cursor_code(c: ConfigModel) -> Seq<char> {
    move_to_code(
        (c.buffer.rx() - c.viewport.coloff) as nat,
        (c.buffer.cy - c.viewport.rowoff) as nat,
    )
}

/// One frame: the cursor hidden, the screen cleared, the lines of the
/// drawing area, the status bar, the message bar, the cursor put in its
/// place and shown again.
pub open spec fn frame(c: ConfigModel, now: int) -> Seq<char> {
    hide_cursor_code() + clear_screen_code() + text_lines(c, c.viewport.screenrows) + status_bar(c)
        + line_break() + message_bar(c, now) + cursor_code(c) + show_cursor_code()
}

/// Every line of a frame is exactly as wide as the window: the lines of
/// the drawing area, the status bar and the message bar.
pub proof fn lemma_lines_fill_window(c: ConfigModel, y: int, now: int)
    requires
        c.viewport.wf(),
    ensures
        text_line(c, y).len() == c.viewport.screencols,
        status_bar(c).len() == c.viewport.screencols,
        message_bar(c, now).len() == c.viewport.screencols,
{
}

/// Appends the part of `s` that lies in the window, brought to `width`
/// columns.
fn push_window(out: &mut Vec<char>, s: &Vec<char>, coloff: usize, width: usize)
    ensures
        final(out)@ == old(out)@ + fit(window(s@, coloff as int, width as int), width as int),
{
    let len = s.len();
    let start = if coloff <= len {
        coloff
    } else {
        len
    };
    let end = if width <= len - start {
        start + width
    } else {
        len
    };
    let mut i: usize = start;
    proof {
        assert(s@.subrange(start as int, start as int) =~= Seq::<char>::empty());
    }
    while i < end
        invariant
            start <= i <= end <= s.len(),
            out@ == old(out)@ + s@.subrange(start as int, i as int),
        decreases end - i,
    {
        out.push(s[i]);
        proof {
            assert(s@.subrange(start as int, i + 1) =~= s@.subrange(start as int, i as int).push(
                s@[i as int],
            ));
        }
        i += 1;
    }
    push_spaces(out, width - (end - start));
    proof {
        let w = window(s@, coloff as int, width as int);
        assert(w == s@.subrange(start as int, end as int));
        if w.len() >= width {
            assert(w.take(width as int) =~= w);
            assert(w + spaces(0) =~= w);
        }
    }
}

/// Appends `s` brought to `width` columns.
fn push_fit(out: &mut Vec<char>, s: &Vec<char>, width: usize)
    ensures
        final(out)@ == old(out)@ + fit(s@, width as int),
{
    push_window(out, s, 0, width);
    proof {
        let w = window(s@, 0, width as int);
        if s@.len() >= width {
            assert(w =~= s@.take(width as int));
            assert(w.take(width as int) =~= w);
        } else {
            assert(w =~= s@);
        }
    }
}

/// The file name as the status bar shows it.
fn name_text(name: &Option<Vec<char>>) -> (text: Vec<char>)
    ensures
        text@ == shown_name(
            match *name {
                Some(n) => Some(n@),
                None => None,
            },
        ),
{
    let mut text: Vec<char> = Vec::new();
    match name {
        Some(name) => {
            let shown = if name.len() <= NAME_WIDTH {
                name.len()
            } else {
                NAME_WIDTH
            };
            push_window(&mut text, name, 0, shown);
            proof {
                let w = window(name@, 0, shown as int);
                assert(w =~= shown_name(Some(name@)));
                assert(w.take(shown as int) =~= w);
                assert(Seq::<char>::empty() + fit(w, shown as int) =~= w);
            }
        },
        None => {
            push_str(&mut text, "[No Name]");
            proof {
                assert(Seq::<char>::empty() + "[No Name]"@ =~= "[No Name]"@);
            }
        },
    }
    text
}

/// The left part of the status bar.
fn left_text(config: &Config) -> (left: Vec<char>)
    ensures
        left@ == status_left(config@),
{
    let mut left = name_text(config.buffer.filename());
    push_str(&mut left, " - ");
    push_decimal(&mut left, config.buffer.num_rows() as u128);
    push_str(&mut left, " lines");
    if config.buffer.dirty() > 0 {
        push_str(&mut left, " (modified)");
    } else {
        proof {
            assert(left@ + Seq::<char>::empty() =~= left@);
        }
    }
    left
}

/// The right part of the status bar.
fn right_text(config: &Config) -> (right: Vec<char>)
    ensures
        right@ == status_right(config@),
{
    let mut right: Vec<char> = Vec::new();
    push_decimal(&mut right, config.buffer.cy() as u128 + 1);
    push_str(&mut right, "/");
    push_decimal(&mut right, config.buffer.num_rows() as u128);
    proof {
        assert(right@ =~= status_right(config@));
    }
    right
}

/// Appends a bar of `width` columns.
fn push_bar(out: &mut Vec<char>, left: &Vec<char>, right: &Vec<char>, width: usize)
    ensures
        final(out)@ == old(out)@ + bar(left@, right@, width as int),
{
    let used = if left.len() <= width {
        left.len()
    } else {
        width
    };
    let ghost l = if left@.len() <= width {
        left@
    } else {
        left@.take(width as int)
    };
    if right.len() <= width - used {
        push_window(out, left, 0, used);
        proof {
            let w = window(left@, 0, used as int);
            assert(w =~= l);
            assert(fit(w, used as int) =~= l);
        }
        push_spaces(out, width - used - right.len());
        push_chars(out, right);
        proof {
            assert(out@ =~= old(out)@ + (l + spaces((width - l.len() - right@.len()) as nat)
                + right@));
        }
    } else {
        push_fit(out, left, width);
        proof {
            assert(fit(l, width as int) =~= fit(left@, width as int));
        }
    }
}

/// The renderer.
pub struct Output;

impl Output {
    pub fn new() -> (output: Output) {
        Output
    }

    /// The sequence that clears the screen and puts the cursor at its top
    /// left.
    pub fn clear_screen() -> (code: Vec<char>)
        ensures
            code@ == clear_screen_code(),
    {
        let mut code = ansi::clear_all();
        let home = ansi::move_to(0, 0);
        push_chars(&mut code, &home);
        code
    }

    /// Appends the lines of the drawing area to `frame`.
    pub fn draw_rows(&self, config: &Config, frame: &mut Vec<char>)
        requires
            config.buffer.wf(),
        ensures
            final(frame)@ == old(frame)@ + text_lines(config@, config@.viewport.screenrows),
    {
        let rowoff = config.viewport.rowoff();
        let coloff = config.viewport.coloff();
        let width = config.viewport.screencols() as usize;
        let height = config.viewport.screenrows() as usize;
        let n = config.buffer.num_rows();
        let mut y: usize = 0;
        proof {
            assert(old(frame)@ + text_lines(config@, 0) =~= old(frame)@);
        }
        while y < height
            invariant
                y <= height,
                config.buffer.wf(),
                rowoff == config@.viewport.rowoff,
                coloff == config@.viewport.coloff,
                width == config@.viewport.screencols,
                height == config@.viewport.screenrows,
                n == config@.buffer.rows.len(),
                frame@ == old(frame)@ + text_lines(config@, y as int),
            decreases height - y,
        {
            let ghost before = frame@;
            if rowoff < n && y < n - rowoff {
                let row = config.buffer.row(rowoff + y);
                push_window(frame, row.render(), coloff, width);
            } else {
                let mut tilde: Vec<char> = Vec::new();
                tilde.push('~');
                proof {
                    assert(tilde@ =~= seq!['~']);
                }
                push_fit(frame, &tilde, width);
            }
            frame.push('\r');
            frame.push('\n');
            proof {
                assert(frame@ =~= before + text_line(config@, y as int) + line_break());
                assert(frame@ =~= old(frame)@ + text_lines(config@, y + 1));
            }
            y += 1;
        }
    }

    /// Appends the status bar to `frame`.
    pub fn draw_status_bar(&self, config: &Config, frame: &mut Vec<char>)
        ensures
            final(frame)@ == old(frame)@ + status_bar(config@),
    {
        let left = left_text(config);
        let right = right_text(config);
        push_bar(frame, &left, &right, config.viewport.screencols() as usize);
    }

    /// Appends the message bar at `now` to `frame`.
    pub fn draw_message_bar(&self, config: &Config, now: u64, frame: &mut Vec<char>)
        ensures
            final(frame)@ == old(frame)@ + message_bar(config@, now as int),
    {
        let width = config.viewport.screencols() as usize;
        if config.status.live(now, config.message_lifetime) {
            push_fit(frame, config.status.text(), width);
        } else {
            let nothing: Vec<char> = Vec::new();
            push_fit(frame, &nothing, width);
        }
    }

    /// Composes the frame that shows `config` at `now`.
    pub fn refresh_screen(&self, config: &Config, now: u64) -> (frame: Vec<char>)
        requires
            config.wf(),
        ensures
            frame@ == self::frame(config@, now as int),
    {
        let mut frame = ansi::hide_cursor();
        let clear = Output::clear_screen();
        push_chars(&mut frame, &clear);
        self.draw_rows(config, &mut frame);
        self.draw_status_bar(config, &mut frame);
        frame.push('\r');
        frame.push('\n');
        self.draw_message_bar(config, now, &mut frame);
        let col = (config.buffer.rx() - config.viewport.coloff()) as u16;
        let row = (config.buffer.cy() - config.viewport.rowoff()) as u16;
        let place = ansi::move_to(col, row);
        push_chars(&mut frame, &place);
        let show = ansi::show_cursor();
        push_chars(&mut frame, &show);
        proof {
            assert(frame@ =~= self::frame(config@, now as int));
        }
        frame
    }
}

} // verus!
