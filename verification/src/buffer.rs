//! The document: its rows, the cursor, and the count of unsaved changes.
//!
//! Every operation is stated over `BufferModel`, the mathematical value of a
//! buffer. The executable buffer keeps one `Row` per line and the render
//! column of the cursor beside it.

use crate::row::{render_column, Row};
use crate::text::{lines_view, push_chars, text_of_lines};
use vstd::prelude::*;

verus! {

/// The four directions in which the cursor moves.
#[derive(Clone, Copy, PartialEq, Eq, Structural, Debug)]
pub enum Direction {
    Up,
    Down,
    Left,
    Right,
}

/// The value of a buffer: the lines, the cursor as a character index `cx`
/// in line `cy`, and the count of changes since the last save.
pub struct BufferModel {
    pub rows: Seq<Seq<char>>,
    pub cx: int,
    pub cy: int,
    pub dirty: int,
}

impl BufferModel {
    /// The cursor is on a line and within it, or parked below the last line
    /// in column zero.
    pub open spec fn wf(self) -> bool {
        &&& 0 <= self.cy <= self.rows.len()
        &&& 0 <= self.cx <= self.row_len(self.cy)
        &&& 0 <= self.dirty <= u64::MAX
    }

    /// The length of line `y`; zero where there is no such line.
    pub open spec fn row_len(self, y: int) -> int {
        if 0 <= y < self.rows.len() {
            self.rows[y].len() as int
        } else {
            0
        }
    }

    /// The column at which the cursor is drawn.
    pub open spec fn rx(self) -> nat {
        if 0 <= self.cy < self.rows.len() {
            render_column(self.rows[self.cy], self.cx)
        } else {
            0
        }
    }

    /// The document as one text.
    pub open spec fn text(self) -> Seq<char> {
        text_of_lines(self.rows)
    }

    /// The count of changes after one more; it stops at the largest `u64`.
    pub open spec fn touched(self) -> int {
        if self.dirty < u64::MAX {
            self.dirty + 1
        } else {
            self.dirty
        }
    }

    /// The cursor set to line `y` and character `x`, each brought back into
    /// range where it lies beyond.
    pub open spec fn move_to(self, x: int, y: int) -> BufferModel {
        let cy = if y <= self.rows.len() {
            y
        } else {
            self.rows.len() as int
        };
        let cx = if x <= self.row_len(cy) {
            x
        } else {
            self.row_len(cy)
        };
        BufferModel { cx, cy, ..self }
    }

    /// One step of the cursor. Left at the start of a line goes to the end of
    /// the line above, right at the end of a line to the start of the line
    /// below; after a vertical step the column is cut to the new line.
    pub open spec fn move_cursor(self, direction: Direction) -> BufferModel {
        match direction {
            Direction::Left => if self.cx > 0 {
                self.move_to(self.cx - 1, self.cy)
            } else if self.cy > 0 {
                self.move_to(self.row_len(self.cy - 1), self.cy - 1)
            } else {
                self
            },
            Direction::Right => if self.cy < self.rows.len() {
                if self.cx < self.row_len(self.cy) {
                    self.move_to(self.cx + 1, self.cy)
                } else {
                    self.move_to(0, self.cy + 1)
                }
            } else {
                self
            },
            Direction::Up => if self.cy > 0 {
                self.move_to(self.cx, self.cy - 1)
            } else {
                self
            },
            Direction::Down => self.move_to(self.cx, self.cy + 1),
        }
    }

    /// The character `c` put at the cursor, which moves past it. With the
    /// cursor parked below the last line, an empty line is added first.
    pub open spec fn insert_char(self, c: char) -> BufferModel {
        let rows = if self.cy == self.rows.len() {
            self.rows.push(Seq::empty())
        } else {
            self.rows
        };
        BufferModel {
            rows: rows.update(self.cy, rows[self.cy].insert(self.cx, c)),
            cx: self.cx + 1,
            cy: self.cy,
            dirty: self.touched(),
        }
    }

    /// The character left of the cursor removed. At the start of a line the
    /// line is joined onto the end of the one above, and the cursor stands at
    /// the joint. At the start of the document, and with the cursor parked,
    /// nothing changes.
    pub open spec fn delete_char(self) -> BufferModel {
        if self.cy == self.rows.len() {
            self
        } else if self.cx > 0 {
            BufferModel {
                rows: self.rows.update(self.cy, self.rows[self.cy].remove(self.cx - 1)),
                cx: self.cx - 1,
                cy: self.cy,
                dirty: self.touched(),
            }
        } else if self.cy > 0 {
            BufferModel {
                rows: self.rows.update(
                    self.cy - 1,
                    self.rows[self.cy - 1] + self.rows[self.cy],
                ).remove(self.cy),
                cx: self.rows[self.cy - 1].len() as int,
                cy: self.cy - 1,
                dirty: self.touched(),
            }
        } else {
            self
        }
    }

    /// The line cut in two at the cursor, which moves to the start of the
    /// second part. With the cursor parked, an empty line is added and the
    /// cursor is parked below it.
    pub open spec fn insert_newline(self) -> BufferModel {
        if self.cy == self.rows.len() {
            BufferModel {
                rows: self.rows.push(Seq::empty()),
                cx: 0,
                cy: self.cy + 1,
                dirty: self.touched(),
            }
        } else {
            BufferModel {
                rows: self.rows.update(self.cy, self.rows[self.cy].take(self.cx)).insert(
                    self.cy + 1,
                    self.rows[self.cy].skip(self.cx),
                ),
                cx: 0,
                cy: self.cy + 1,
                dirty: self.touched(),
            }
        }
    }

    /// Whether a character stands at or after the cursor: the cursor is on a
    /// line, and not at the end of the last one.
    pub open spec fn has_next(self) -> bool {
        self.cy < self.rows.len() && !(self.cy == self.rows.len() - 1 && self.cx == self.row_len(
            self.cy,
        ))
    }

    /// The character at the cursor removed: a step to the right, then the
    /// removal of what is now to the left. At the end of the document nothing
    /// changes.
    pub open spec fn delete_forward(self) -> BufferModel {
        if self.has_next() {
            self.move_cursor(Direction::Right).delete_char()
        } else {
            self
        }
    }

    /// The count of changes set back to zero.
    pub open spec fn saved(self) -> BufferModel {
        BufferModel { dirty: 0, ..self }
    }
}

/// The document buffer.
pub struct DocumentBuffer {
    rows: Vec<Row>,
    cx: usize,
    cy: usize,
    rx: usize,
    dirty: u64,
    filename: Option<Vec<char>>,
}

impl View for DocumentBuffer {
    type V = BufferModel;

    closed spec fn view(&self) -> BufferModel {
        BufferModel {
            rows: Seq::new(self.rows@.len(), |i: int| self.rows@[i]@),
            cx: self.cx as int,
            cy: self.cy as int,
            dirty: self.dirty as int,
        }
    }
}

impl DocumentBuffer {
    /// Every row holds the drawn form of its characters, and the buffer
    /// holds the render column of its cursor.
    pub closed spec fn derived_ok(&self) -> bool {
        &&& forall|i: int| 0 <= i < self.rows@.len() ==> (#[trigger] self.rows@[i]).wf()
        &&& self.rx == self@.rx()
    }

    /// The cursor is in range and nothing derived is stale.
    pub open spec fn wf(&self) -> bool {
        self@.wf() && self.derived_ok()
    }

    /// The name of the file that the buffer belongs to, if it has one.
    pub closed spec fn name(&self) -> Option<Seq<char>> {
        match self.filename {
            Some(name) => Some(name@),
            None => None,
        }
    }

    /// A buffer of one empty line, without a file name.
    pub fn new() -> (buffer: DocumentBuffer)
        ensures
            buffer.wf(),
            buffer@ == (BufferModel { rows: seq![Seq::<char>::empty()], cx: 0, cy: 0, dirty: 0 }),
            buffer.name().is_none(),
    {
        let mut rows: Vec<Row> = Vec::new();
        rows.push(Row::new(Vec::new()));
        let buffer = DocumentBuffer { rows, cx: 0, cy: 0, rx: 0, dirty: 0, filename: None };
        proof {
            assert(buffer@.rows =~= seq![Seq::<char>::empty()]);
            assert(buffer@.rows[0].take(0) =~= Seq::<char>::empty());
        }
        buffer
    }

    /// A buffer of the given lines, with the cursor at the start.
    pub fn from_lines(lines: &Vec<Vec<char>>, filename: Option<Vec<char>>) -> (buffer:
        DocumentBuffer)
        ensures
            buffer.wf(),
            buffer@ == (BufferModel { rows: lines_view(lines@), cx: 0, cy: 0, dirty: 0 }),
            buffer.name() == match filename {
                Some(name) => Some(name@),
                None => None,
            },
    {
        let mut rows: Vec<Row> = Vec::new();
        let mut i: usize = 0;
        while i < lines.len()
            invariant
                i <= lines.len(),
                rows@.len() == i,
                forall|k: int| 0 <= k < i ==> (#[trigger] rows@[k]).wf() && rows@[k]@ == lines@[k]@,
            decreases lines.len() - i,
        {
            let mut raw: Vec<char> = Vec::new();
            push_chars(&mut raw, &lines[i]);
            proof {
                assert(Seq::<char>::empty() + lines@[i as int]@ =~= lines@[i as int]@);
            }
            rows.push(Row::new(raw));
            i += 1;
        }
        let buffer = DocumentBuffer { rows, cx: 0, cy: 0, rx: 0, dirty: 0, filename };
        proof {
            assert(buffer@.rows =~= lines_view(lines@));
            if buffer@.rows.len() > 0 {
                assert(buffer@.rows[0].take(0) =~= Seq::<char>::empty());
            }
        }
        buffer
    }

    /// The character index of the cursor in its line.
    pub fn cx(&self) -> (cx: usize)
        ensures
            cx == self@.cx,
    {
        self.cx
    }

    /// The line of the cursor.
    pub fn cy(&self) -> (cy: usize)
        ensures
            cy == self@.cy,
    {
        self.cy
    }

    /// The column at which the cursor is drawn.
    pub fn rx(&self) -> (rx: usize)
        requires
            self.wf(),
        ensures
            rx == self@.rx(),
    {
        self.rx
    }

    /// The count of changes since the last save.
    pub fn dirty(&self) -> (dirty: u64)
        ensures
            dirty == self@.dirty,
    {
        self.dirty
    }

    /// The number of lines.
    pub fn num_rows(&self) -> (n: usize)
        ensures
            n == self@.rows.len(),
    {
        self.rows.len()
    }

    /// Line `y`.
    pub fn row(&self, y: usize) -> (row: &Row)
        requires
            self.wf(),
            y < self@.rows.len(),
        ensures
            row@ == self@.rows[y as int],
            row.wf(),
    {
        &self.rows[y]
    }

    /// The file name, if there is one.
    pub fn filename(&self) -> (name: &Option<Vec<char>>)
        ensures
            self.name() == match *name {
                Some(n) => Some(n@),
                None => None,
            },
    {
        &self.filename
    }

    /// The document as one text: the lines joined with newlines.
    pub fn serialize(&self) -> (text: Vec<char>)
        ensures
            text@ == self@.text(),
    {
        let mut text: Vec<char> = Vec::new();
        let mut i: usize = 0;
        proof {
            assert(self@.rows.take(0) =~= Seq::<Seq<char>>::empty());
        }
        while i < self.rows.len()
            invariant
                i <= self.rows.len(),
                text@ == text_of_lines(self@.rows.take(i as int)),
            decreases self.rows.len() - i,
        {
            let ghost before = text@;
            if i > 0 {
                text.push('\n');
            }
            push_chars(&mut text, self.rows[i].chars());
            proof {
                let next = self@.rows.take(i + 1);
                assert(next.drop_last() =~= self@.rows.take(i as int));
                assert(next.last() == self.rows@[i as int]@);
                if i == 0 {
                    assert(text@ =~= next.last());
                } else {
                    assert(text@ =~= before + seq![crate::text::newline()] + next.last());
                }
            }
            i += 1;
        }
        proof {
            assert(self@.rows.take(i as int) =~= self@.rows);
        }
        text
    }

    /// Records that the document was saved.
    pub fn mark_saved(&mut self)
        requires
            old(self).wf(),
        ensures
            final(self).wf(),
            final(self)@ == old(self)@.saved(),
            final(self).name() == old(self).name(),
    {
        self.dirty = 0;
    }

    /// Counts one more change.
    fn touch(&mut self) -> (dirty: u64)
        ensures
            dirty == old(self)@.touched(),
            *final(self) == (DocumentBuffer { dirty, ..*old(self) }),
    {
        if self.dirty < u64::MAX {
            self.dirty = self.dirty + 1;
        }
        self.dirty
    }

    /// Sets the cursor to character `x` of line `y`, each brought back into
    /// range where it lies beyond.
    pub fn move_to(&mut self, x: usize, y: usize)
        requires
            old(self).wf(),
        ensures
            final(self).wf(),
            final(self)@ == old(self)@.move_to(x as int, y as int),
            final(self).name() == old(self).name(),
    {
        let cy = if y <= self.rows.len() {
            y
        } else {
            self.rows.len()
        };
        if cy < self.rows.len() {
            let len = self.rows[cy].len();
            let cx = if x <= len {
                x
            } else {
                len
            };
            self.rx = self.rows[cy].render_column(cx);
            self.cx = cx;
        } else {
            self.cx = 0;
            self.rx = 0;
        }
        self.cy = cy;
    }

    /// Moves the cursor one step and returns the count of changes, which
    /// a step does not touch.
    pub fn move_cursor(&mut self, direction: Direction) -> (dirty: u64)
        requires
            old(self).wf(),
        ensures
            final(self).wf(),
            final(self)@ == old(self)@.move_cursor(direction),
            dirty == final(self)@.dirty,
            final(self).name() == old(self).name(),
    {
        match direction {
            Direction::Left => {
                if self.cx > 0 {
                    self.move_to(self.cx - 1, self.cy);
                } else if self.cy > 0 {
                    let len = self.rows[self.cy - 1].len();
                    self.move_to(len, self.cy - 1);
                }
            },
            Direction::Right => {
                if self.cy < self.rows.len() {
                    if self.cx < self.rows[self.cy].len() {
                        self.move_to(self.cx + 1, self.cy);
                    } else {
                        self.move_to(0, self.cy + 1);
                    }
                }
            },
            Direction::Up => {
                if self.cy > 0 {
                    self.move_to(self.cx, self.cy - 1);
                }
            },
            Direction::Down => {
                if self.cy < self.rows.len() {
                    self.move_to(self.cx, self.cy + 1);
                } else {
                    proof {
                        assert(self@.move_to(self@.cx, self@.cy + 1) == self@);
                    }
                }
            },
        }
        self.dirty
    }

    /// Inserts `c` at the cursor and returns the new count of changes.
    pub fn insert_char(&mut self, c: char) -> (dirty: u64)
        requires
            old(self).wf(),
        ensures
            final(self).wf(),
            final(self)@ == old(self)@.insert_char(c),
            dirty == final(self)@.dirty,
            final(self).name() == old(self).name(),
    {
        if self.cy == self.rows.len() {
            self.rows.push(Row::new(Vec::new()));
            proof {
                assert(self@.rows =~= old(self)@.rows.push(Seq::empty()));
            }
        }
        let ghost rows = self@.rows;
        let row = &mut self.rows[self.cy];
        row.insert_char(self.cx, c);
        // The row has grown by one, so the step cannot overflow.
        let len = row.len();
        assert(self.cx < len);
        self.cx = self.cx + 1;
        self.rx = row.render_column(self.cx);
        proof {
            assert(self@.rows =~= rows.update(self.cy as int, rows[self.cy as int].insert(
                old(self)@.cx,
                c,
            )));
        }
        self.touch()
    }

    /// Deletes the character left of the cursor and returns the new count of
    /// changes.
    pub fn delete_char(&mut self) -> (dirty: u64)
        requires
            old(self).wf(),
        ensures
            final(self).wf(),
            final(self)@ == old(self)@.delete_char(),
            dirty == final(self)@.dirty,
            final(self).name() == old(self).name(),
    {
        if self.cy == self.rows.len() {
            self.dirty
        } else if self.cx > 0 {
            let ghost rows = self@.rows;
            let row = &mut self.rows[self.cy];
            row.delete_char(self.cx - 1);
            self.cx = self.cx - 1;
            self.rx = row.render_column(self.cx);
            proof {
                assert(self@.rows =~= rows.update(self.cy as int, rows[self.cy as int].remove(
                    old(self)@.cx - 1,
                )));
            }
            self.touch()
        } else if self.cy > 0 {
            let ghost rows = self@.rows;
            let tail = self.rows.remove(self.cy);
            self.cy = self.cy - 1;
            let row = &mut self.rows[self.cy];
            self.cx = row.len();
            row.append(tail.chars());
            self.rx = row.render_column(self.cx);
            proof {
                assert(self@.rows =~= rows.update(
                    old(self)@.cy - 1,
                    rows[old(self)@.cy - 1] + rows[old(self)@.cy],
                ).remove(old(self)@.cy));
            }
            self.touch()
        } else {
            self.dirty
        }
    }

    /// Breaks the line at the cursor and returns the new count of changes.
    pub fn insert_newline(&mut self) -> (dirty: u64)
        requires
            old(self).wf(),
        ensures
            final(self).wf(),
            final(self)@ == old(self)@.insert_newline(),
            dirty == final(self)@.dirty,
            final(self).name() == old(self).name(),
    {
        let ghost rows = self@.rows;
        if self.cy == self.rows.len() {
            self.rows.push(Row::new(Vec::new()));
            proof {
                assert(self@.rows =~= rows.push(Seq::empty()));
            }
        } else {
            let rest = self.rows[self.cy].split_off(self.cx);
            self.rows.insert(self.cy + 1, rest);
            proof {
                assert(self@.rows =~= rows.update(
                    self.cy as int,
                    rows[self.cy as int].take(self.cx as int),
                ).insert(self.cy + 1, rows[self.cy as int].skip(self.cx as int)));
            }
        }
        let n = self.rows.len();
        self.cy = self.cy + 1;
        self.cx = 0;
        self.rx = 0;
        proof {
            if self.cy < n {
                assert(self@.rows[self.cy as int].take(0) =~= Seq::<char>::empty());
            }
        }
        self.touch()
    }

    /// Deletes the character at the cursor and returns the new count of
    /// changes.
    pub fn delete_forward(&mut self) -> (dirty: u64)
        requires
            old(self).wf(),
        ensures
            final(self).wf(),
            final(self)@ == old(self)@.delete_forward(),
            dirty == final(self)@.dirty,
            final(self).name() == old(self).name(),
    {
        let n = self.rows.len();
        if self.cy < n && !(self.cy == n - 1 && self.cx == self.rows[self.cy].len()) {
            let _ = self.move_cursor(Direction::Right);
            self.delete_char()
        } else {
            self.dirty
        }
    }
}

} // verus!
