//! One line of the document: its characters, and the form in which they are
//! drawn, with every tab expanded to the next tab stop.

use crate::text::{push_spaces, spaces};
use vstd::prelude::*;

verus! {

/// The distance between tab stops, in columns.
pub const TAB_STOP: usize = 8;

/// The number of columns a tab fills when it starts at column `col`.
pub open spec fn tab_fill(col: nat) -> nat {
    (TAB_STOP - col % (TAB_STOP as nat)) as nat
}

/// The drawn form of a line: every tab becomes the spaces up to the next tab
/// stop, every other character stands for itself.
pub open spec fn expand_tabs(raw: Seq<char>) -> Seq<char>
    decreases raw.len(),
{
    if raw.len() == 0 {
        Seq::empty()
    } else {
        let head = expand_tabs(raw.drop_last());
        if raw.last() == '\t' {
            head + spaces(tab_fill(head.len()))
        } else {
            head.push(raw.last())
        }
    }
}

/// The column at which the character with index `cx` is drawn: the width of
/// what stands before it.
pub open spec fn render_column(raw: Seq<char>, cx: int) -> nat {
    expand_tabs(raw.take(cx)).len()
}

/// The drawn form of a prefix is no wider than that of the whole line.
pub proof fn lemma_render_column_bound(raw: Seq<char>, cx: int)
    requires
        0 <= cx <= raw.len(),
    ensures
        render_column(raw, cx) <= expand_tabs(raw).len(),
    decreases raw.len(),
{
    if cx == raw.len() {
        assert(raw.take(cx) =~= raw);
    } else {
        assert(raw.take(cx) =~= raw.drop_last().take(cx));
        lemma_render_column_bound(raw.drop_last(), cx);
    }
}

/// A line with its drawn form.
pub struct Row {
    raw: Vec<char>,
    render: Vec<char>,
}

impl View for Row {
    type V = Seq<char>;

    /// The characters of the line.
    closed spec fn view(&self) -> Seq<char> {
        self.raw@
    }
}

impl Row {
    /// The drawn form that the row holds.
    pub closed spec fn rendered(&self) -> Seq<char> {
        self.render@
    }

    /// The drawn form is the one that belongs to the characters.
    pub open spec fn wf(&self) -> bool {
        self.rendered() == expand_tabs(self@)
    }

    /// A row of the given characters.
    pub fn new(raw: Vec<char>) -> (row: Row)
        ensures
            row@ == raw@,
            row.wf(),
    {
        let mut row = Row { raw, render: Vec::new() };
        row.refresh();
        row
    }

    /// The number of characters.
    pub fn len(&self) -> (n: usize)
        ensures
            n == self@.len(),
    {
        self.raw.len()
    }

    /// The characters.
    pub fn chars(&self) -> (raw: &Vec<char>)
        ensures
            raw@ == self@,
    {
        &self.raw
    }

    /// The drawn form.
    pub fn render(&self) -> (render: &Vec<char>)
        ensures
            render@ == self.rendered(),
    {
        &self.render
    }

    /// Inserts `c` before the character with index `at`; an index past the
    /// end stands for the end.
    pub fn insert_char(&mut self, at: usize, c: char)
        ensures
            final(self)@ == old(self)@.insert(
                if at <= old(self)@.len() {
                    at as int
                } else {
                    old(self)@.len() as int
                },
                c,
            ),
            final(self).wf(),
    {
        let at = if at <= self.raw.len() {
            at
        } else {
            self.raw.len()
        };
        self.raw.insert(at, c);
        self.refresh();
    }

    /// Removes the character with index `at`; without such a character the
    /// row stays as it is.
    pub fn delete_char(&mut self, at: usize)
        ensures
            final(self)@ == if at < old(self)@.len() {
                old(self)@.remove(at as int)
            } else {
                old(self)@
            },
            final(self).wf(),
    {
        if at < self.raw.len() {
            self.raw.remove(at);
        }
        self.refresh();
    }

    /// Appends the characters of `tail`.
    pub fn append(&mut self, tail: &Vec<char>)
        ensures
            final(self)@ == old(self)@ + tail@,
            final(self).wf(),
    {
        crate::text::push_chars(&mut self.raw, tail);
        self.refresh();
    }

    /// Cuts the row before the character with index `at` and returns what
    /// stood from there on; an index past the end stands for the end.
    pub fn split_off(&mut self, at: usize) -> (rest: Row)
        ensures
            at <= old(self)@.len() ==> final(self)@ == old(self)@.take(at as int) && rest@ == old(
                self,
            )@.skip(at as int),
            at > old(self)@.len() ==> final(self)@ == old(self)@ && rest@ == Seq::<char>::empty(),
            final(self).wf(),
            rest.wf(),
    {
        let at = if at <= self.raw.len() {
            at
        } else {
            self.raw.len()
        };
        let tail = self.raw.split_off(at);
        proof {
            assert(old(self)@.subrange(0, at as int) =~= old(self)@.take(at as int));
            assert(old(self)@.subrange(at as int, old(self)@.len() as int) =~= old(self)@.skip(
                at as int,
            ));
            if at == old(self)@.len() {
                assert(old(self)@.take(at as int) =~= old(self)@);
                assert(old(self)@.skip(at as int) =~= Seq::<char>::empty());
            }
        }
        self.refresh();
        Row::new(tail)
    }

    /// The column at which the character with index `cx` is drawn; an index
    /// past the end stands for the end.
    pub fn render_column(&self, cx: usize) -> (rx: usize)
        requires
            self.wf(),
        ensures
            rx == render_column(
                self@,
                if cx <= self@.len() {
                    cx as int
                } else {
                    self@.len() as int
                },
            ),
    {
        let end = if cx <= self.raw.len() {
            cx
        } else {
            self.raw.len()
        };
        let width = self.render.len();
        let mut rx: usize = 0;
        let mut i: usize = 0;
        proof {
            assert(self.raw@.take(0) =~= Seq::<char>::empty());
        }
        while i < end
            invariant
                i <= end <= self.raw.len(),
                width == expand_tabs(self.raw@).len(),
                rx == render_column(self.raw@, i as int),
            decreases end - i,
        {
            proof {
                let next = self.raw@.take(i + 1);
                assert(next.drop_last() =~= self.raw@.take(i as int));
                assert(next.last() == self.raw@[i as int]);
                lemma_render_column_bound(self.raw@, i + 1);
                assert(render_column(self.raw@, i + 1) == if self.raw@[i as int] == '\t' {
                    rx + tab_fill(rx as nat)
                } else {
                    rx + 1
                });
            }
            if self.raw[i] == '\t' {
                rx = rx + (TAB_STOP - rx % TAB_STOP);
            } else {
                rx = rx + 1;
            }
            i += 1;
        }
        rx
    }

    /// Derives the drawn form from the characters.
    fn refresh(&mut self)
        ensures
            final(self).raw@ == old(self).raw@,
            final(self).render@ == expand_tabs(final(self).raw@),
    {
        let mut render: Vec<char> = Vec::new();
        let mut i: usize = 0;
        proof {
            assert(self.raw@.take(0) =~= Seq::<char>::empty());
        }
        while i < self.raw.len()
            invariant
                i <= self.raw.len(),
                self.raw@ == old(self).raw@,
                render@ == expand_tabs(self.raw@.take(i as int)),
            decreases self.raw.len() - i,
        {
            let c = self.raw[i];
            proof {
                let next = self.raw@.take(i + 1);
                assert(next.drop_last() =~= self.raw@.take(i as int));
                assert(next.last() == c);
            }
            if c == '\t' {
                let fill: usize = TAB_STOP - render.len() % TAB_STOP;
                push_spaces(&mut render, fill);
            } else {
                render.push(c);
            }
            i += 1;
        }
        proof {
            assert(self.raw@.take(i as int) =~= self.raw@);
        }
        self.render = render;
    }
}

} // verus!
