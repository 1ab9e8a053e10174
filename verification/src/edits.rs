//! What the editing operations do to the document read as one text.
//!
//! A buffer edits lines; a reader of the file sees a text with a cursor in
//! it. The laws below say that both views agree: each operation of the
//! buffer is the insertion or removal of one character of the text at the
//! place of the cursor.

use crate::buffer::{BufferModel, Direction};
use crate::text::{
    lemma_terminated_concat,
    lemma_text_terminated,
    newline,
    terminated,
    text_of_lines,
};
use vstd::prelude::*;

verus! {

/// One editing step.
pub enum Edit {
    /// A character typed at the cursor.
    Insert(char),
    /// The character left of the cursor removed.
    Delete,
    /// The line broken at the cursor.
    Newline,
}

/// The place of the cursor in the text: the number of characters before it.
/// It is meant for a cursor that stands on a line, or in a document without
/// lines.
pub open spec fn offset(m: BufferModel) -> int {
    terminated(m.rows.take(m.cy)).len() + m.cx
}

/// Whether the cursor stands on a line.
pub open spec fn on_line(m: BufferModel) -> bool {
    m.wf() && m.cy < m.rows.len()
}

/// One step applied to a buffer.
pub open spec fn apply_edit(m: BufferModel, edit: Edit) -> BufferModel {
    match edit {
        Edit::Insert(c) => m.insert_char(c),
        Edit::Delete => m.delete_char(),
        Edit::Newline => m.insert_newline(),
    }
}

/// The steps applied to a buffer, the first of them first.
pub open spec fn apply_edits(m: BufferModel, edits: Seq<Edit>) -> BufferModel
    decreases edits.len(),
{
    if edits.len() == 0 {
        m
    } else {
        apply_edit(apply_edits(m, edits.drop_last()), edits.last())
    }
}

/// A text with a cursor in it: the plainest editor there is.
pub struct TextCursor {
    pub text: Seq<char>,
    pub pos: int,
}

/// One step applied to a text with a cursor.
pub open spec fn reference_edit(t: TextCursor, edit: Edit) -> TextCursor {
    match edit {
        Edit::Insert(c) => TextCursor { text: t.text.insert(t.pos, c), pos: t.pos + 1 },
        Edit::Delete => if t.pos > 0 {
            TextCursor { text: t.text.remove(t.pos - 1), pos: t.pos - 1 }
        } else {
            t
        },
        Edit::Newline => TextCursor { text: t.text.insert(t.pos, newline()), pos: t.pos + 1 },
    }
}

/// The steps applied to a text with a cursor, the first of them first.
pub open spec fn reference_edits(t: TextCursor, edits: Seq<Edit>) -> TextCursor
    decreases edits.len(),
{
    if edits.len() == 0 {
        t
    } else {
        reference_edit(reference_edits(t, edits.drop_last()), edits.last())
    }
}

/// The text with a cursor that a buffer stands for.
pub open spec fn as_text(m: BufferModel) -> TextCursor {
    TextCursor { text: m.text(), pos: offset(m) }
}

/// The terminated text of a document falls into what precedes line `y`,
/// the line itself with its newline, and what follows.
proof fn lemma_terminated_at(rows: Seq<Seq<char>>, y: int)
    requires
        0 <= y < rows.len(),
    ensures
        terminated(rows) == terminated(rows.take(y)) + rows[y] + seq![newline()] + terminated(
            rows.skip(y + 1),
        ),
{
    let one = seq![rows[y]];
    assert(rows =~= rows.take(y) + one + rows.skip(y + 1));
    lemma_terminated_concat(rows.take(y) + one, rows.skip(y + 1));
    lemma_terminated_concat(rows.take(y), one);
    assert(one.drop_last() =~= Seq::<Seq<char>>::empty());
    assert(terminated(one.drop_last()) =~= Seq::<char>::empty());
    assert(terminated(one) =~= rows[y] + seq![newline()]);
    assert(terminated(rows.take(y)) + terminated(one) =~= terminated(rows.take(y)) + rows[y]
        + seq![newline()]);
}

/// The text of a document with at least one line is its terminated text
/// without the last newline.
proof fn lemma_text_is_terminated_front(rows: Seq<Seq<char>>)
    requires
        rows.len() >= 1,
    ensures
        text_of_lines(rows) == terminated(rows).drop_last(),
        terminated(rows).len() >= 1,
{
    lemma_text_terminated(rows);
    assert((text_of_lines(rows) + seq![newline()]).drop_last() =~= text_of_lines(rows));
}

/// The cursor of a well-formed buffer on a line lies within the text.
pub proof fn lemma_offset_in_text(m: BufferModel)
    requires
        on_line(m),
    ensures
        0 <= offset(m) <= m.text().len(),
{
    lemma_terminated_at(m.rows, m.cy);
    lemma_text_is_terminated_front(m.rows);
}

/// Typing a character inserts it into the text at the cursor, which moves
/// past it. This holds with the cursor on a line and in a document without
/// lines.
pub proof fn lemma_insert_char_text(m: BufferModel, c: char)
    requires
        m.wf(),
        m.cy < m.rows.len() || m.rows.len() == 0,
    ensures
        on_line(m.insert_char(c)),
        as_text(m.insert_char(c)) == reference_edit(as_text(m), Edit::Insert(c)),
{
    let rows = if m.cy == m.rows.len() {
        m.rows.push(Seq::empty())
    } else {
        m.rows
    };
    let y = m.cy;
    let after = m.insert_char(c);
    if m.rows.len() == 0 {
        assert(m.rows.take(y) =~= rows.take(y));
        assert(text_of_lines(rows) =~= text_of_lines(m.rows));
    }
    lemma_terminated_at(rows, y);
    lemma_terminated_at(after.rows, y);
    assert(after.rows.take(y) =~= rows.take(y));
    assert(after.rows.skip(y + 1) =~= rows.skip(y + 1));
    assert(m.rows.take(y) =~= rows.take(y));
    lemma_text_is_terminated_front(rows);
    lemma_text_is_terminated_front(after.rows);
    assert(terminated(after.rows) =~= terminated(rows).insert(offset(m), c));
    assert(after.text() =~= text_of_lines(rows).insert(offset(m), c));
}

/// Breaking the line inserts a newline into the text at the cursor, which
/// moves past it. This holds with the cursor on a line.
pub proof fn lemma_insert_newline_text(m: BufferModel)
    requires
        on_line(m),
    ensures
        on_line(m.insert_newline()),
        as_text(m.insert_newline()) == reference_edit(as_text(m), Edit::Newline),
{
    let y = m.cy;
    let after = m.insert_newline();
    let row = m.rows[y];
    lemma_terminated_at(m.rows, y);
    lemma_terminated_at(after.rows, y + 1);
    lemma_terminated_at(after.rows.take(y + 1), y);
    assert(after.rows.take(y + 1).take(y) =~= m.rows.take(y));
    assert(after.rows.take(y + 1).skip(y + 1) =~= Seq::<Seq<char>>::empty());
    assert(after.rows.skip(y + 2) =~= m.rows.skip(y + 1));
    assert(after.rows[y] == row.take(m.cx));
    assert(after.rows[y + 1] == row.skip(m.cx));
    assert(row =~= row.take(m.cx) + row.skip(m.cx));
    lemma_text_is_terminated_front(m.rows);
    lemma_text_is_terminated_front(after.rows);
    assert(terminated(after.rows.take(y + 1)) =~= terminated(m.rows.take(y)) + row.take(m.cx)
        + seq![newline()]);
    assert(terminated(after.rows) =~= terminated(m.rows).insert(offset(m), newline()));
    assert(after.text() =~= m.text().insert(offset(m), newline()));
    assert(after.rows[after.cy].take(0) =~= Seq::<char>::empty());
}

/// Removing a character of the middle part of a text leaves the parts
/// around it as they are.
proof fn lemma_remove_within(p: Seq<char>, r: Seq<char>, q: Seq<char>, i: int)
    requires
        0 <= i < r.len(),
    ensures
        (p + r + q).remove(p.len() + i) == p + r.remove(i) + q,
{
    assert((p + r + q).remove(p.len() + i) =~= p + r.remove(i) + q);
}

/// Removing a character that is not the last one, and then the last one, is
/// removing the last one first.
proof fn lemma_remove_front(t: Seq<char>, k: int)
    requires
        0 <= k < t.len() - 1,
    ensures
        t.remove(k).drop_last() == t.drop_last().remove(k),
{
    assert(t.remove(k).drop_last() =~= t.drop_last().remove(k));
}

/// Deleting within a line removes the character left of the cursor.
proof fn lemma_delete_within_line(m: BufferModel)
    requires
        on_line(m),
        m.cx > 0,
    ensures
        on_line(m.delete_char()),
        as_text(m.delete_char()) == reference_edit(as_text(m), Edit::Delete),
{
    let y = m.cy;
    let after = m.delete_char();
    let nl = seq![newline()];
    let p = terminated(m.rows.take(y));
    let q = nl + terminated(m.rows.skip(y + 1));
    lemma_terminated_at(m.rows, y);
    lemma_terminated_at(after.rows, y);
    assert(after.rows.take(y) =~= m.rows.take(y));
    assert(after.rows.skip(y + 1) =~= m.rows.skip(y + 1));
    lemma_text_is_terminated_front(m.rows);
    lemma_text_is_terminated_front(after.rows);
    assert(terminated(m.rows) =~= p + m.rows[y] + q);
    assert(terminated(after.rows) =~= p + m.rows[y].remove(m.cx - 1) + q);
    lemma_remove_within(p, m.rows[y], q, m.cx - 1);
    lemma_remove_front(terminated(m.rows), offset(m) - 1);
}

/// Deleting at the start of a line removes the newline before it.
proof fn lemma_delete_joins_lines(m: BufferModel)
    requires
        on_line(m),
        m.cx == 0,
        m.cy > 0,
    ensures
        on_line(m.delete_char()),
        as_text(m.delete_char()) == reference_edit(as_text(m), Edit::Delete),
{
    let y = m.cy;
    let after = m.delete_char();
    let nl = seq![newline()];
    let above = m.rows[y - 1];
    let row = m.rows[y];
    let p = terminated(m.rows.take(y - 1));
    let q = terminated(m.rows.skip(y + 1));
    lemma_terminated_at(m.rows, y);
    lemma_terminated_at(m.rows.take(y), y - 1);
    assert(m.rows.take(y).take(y - 1) =~= m.rows.take(y - 1));
    assert(m.rows.take(y).skip(y) =~= Seq::<Seq<char>>::empty());
    assert(terminated(m.rows.take(y).skip(y)) =~= Seq::<char>::empty());
    assert(terminated(m.rows.take(y)) =~= p + above + nl);
    lemma_terminated_at(after.rows, y - 1);
    assert(after.rows.take(y - 1) =~= m.rows.take(y - 1));
    assert(after.rows.skip(y) =~= m.rows.skip(y + 1));
    assert(after.rows[y - 1] == above + row);
    lemma_text_is_terminated_front(m.rows);
    lemma_text_is_terminated_front(after.rows);
    assert(terminated(m.rows) =~= (p + above) + nl + (row + nl + q));
    assert(terminated(after.rows) =~= (p + above) + nl.remove(0) + (row + nl + q));
    lemma_remove_within(p + above, nl, row + nl + q, 0);
    assert(offset(m) - 1 == (p + above).len());
    lemma_remove_front(terminated(m.rows), offset(m) - 1);
    assert(offset(after) == offset(m) - 1);
}

/// Deleting removes from the text the character left of the cursor, which
/// moves back by one; at the start of the text nothing changes. Joining two
/// lines is the removal of the newline between them. This holds with the
/// cursor on a line and in a document without lines.
pub proof fn lemma_delete_char_text(m: BufferModel)
    requires
        m.wf(),
        m.cy < m.rows.len() || m.rows.len() == 0,
    ensures
        m.cy < m.rows.len() ==> on_line(m.delete_char()),
        m.rows.len() == 0 ==> m.delete_char() == m,
        as_text(m.delete_char()) == reference_edit(as_text(m), Edit::Delete),
{
    if m.rows.len() == 0 {
        assert(m.rows.take(m.cy) =~= Seq::<Seq<char>>::empty());
    } else if m.cx > 0 {
        lemma_delete_within_line(m);
    } else if m.cy > 0 {
        lemma_delete_joins_lines(m);
    } else {
        assert(m.rows.take(m.cy) =~= Seq::<Seq<char>>::empty());
    }
}

/// Content equivalence: a run of editing steps on a buffer whose cursor
/// stands on a line leaves the text, and the cursor in it, that the same
/// steps leave when they are applied to the text itself.
pub proof fn lemma_edits_match_reference(m: BufferModel, edits: Seq<Edit>)
    requires
        on_line(m),
    ensures
        on_line(apply_edits(m, edits)),
        as_text(apply_edits(m, edits)) == reference_edits(as_text(m), edits),
    decreases edits.len(),
{
    if edits.len() > 0 {
        let before = apply_edits(m, edits.drop_last());
        lemma_edits_match_reference(m, edits.drop_last());
        match edits.last() {
            Edit::Insert(c) => lemma_insert_char_text(before, c),
            Edit::Delete => lemma_delete_char_text(before),
            Edit::Newline => lemma_insert_newline_text(before),
        }
    }
}

/// The buffer of one empty line stands for the empty text.
pub open spec fn empty_model() -> BufferModel {
    BufferModel { rows: seq![Seq::<char>::empty()], cx: 0, cy: 0, dirty: 0 }
}

/// Replaying editing steps on the empty buffer gives the text that the
/// same steps give on the empty text.
pub proof fn lemma_replay_on_empty(edits: Seq<Edit>)
    ensures
        apply_edits(empty_model(), edits).text() == reference_edits(
            TextCursor { text: Seq::empty(), pos: 0 },
            edits,
        ).text,
{
    let m = empty_model();
    assert(m.rows.take(0) =~= Seq::<Seq<char>>::empty());
    assert(m.text() =~= Seq::<char>::empty());
    lemma_edits_match_reference(m, edits);
}

/// A step of the cursor leaves it in range.
pub proof fn lemma_move_cursor_in_range(m: BufferModel, direction: Direction)
    requires
        m.wf(),
    ensures
        m.move_cursor(direction).wf(),
{
}

/// The cursor after a run of steps, the first of them first.
pub open spec fn move_cursor_all(m: BufferModel, steps: Seq<Direction>) -> BufferModel
    decreases steps.len(),
{
    if steps.len() == 0 {
        m
    } else {
        move_cursor_all(m, steps.drop_last()).move_cursor(steps.last())
    }
}

/// Whatever steps the cursor takes, it stays on a line and within it, or
/// parked below the last line.
pub proof fn lemma_cursor_stays_in_range(m: BufferModel, steps: Seq<Direction>)
    requires
        m.wf(),
    ensures
        move_cursor_all(m, steps).wf(),
        move_cursor_all(m, steps).rows == m.rows,
    decreases steps.len(),
{
    if steps.len() > 0 {
        lemma_cursor_stays_in_range(m, steps.drop_last());
    }
}

} // verus!
