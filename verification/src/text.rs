//! Plain text helpers: lines and the text they form, decimal numbers,
//! and appending literals to a character buffer.

use vstd::prelude::*;

verus! {

/// The line separator of a document.
pub open spec fn newline() -> char {
    '\n'
}

/// The lines joined with one newline between neighbours.
pub open spec fn text_of_lines(lines: Seq<Seq<char>>) -> Seq<char>
    decreases lines.len(),
{
    if lines.len() == 0 {
        Seq::empty()
    } else if lines.len() == 1 {
        lines[0]
    } else {
        text_of_lines(lines.drop_last()) + seq![newline()] + lines.last()
    }
}

/// The lines of a text: the pieces between its newlines. A text without a
/// newline, the empty text included, is one line.
pub open spec fn lines_of_text(text: Seq<char>) -> Seq<Seq<char>>
    decreases text.len(),
{
    if text.len() == 0 {
        seq![Seq::empty()]
    } else {
        let init = lines_of_text(text.drop_last());
        if text.last() == newline() {
            init.push(Seq::empty())
        } else {
            init.update(init.len() - 1, init.last().push(text.last()))
        }
    }
}

/// Whether no line holds a newline.
pub open spec fn newline_free(lines: Seq<Seq<char>>) -> bool {
    forall|i: int, j: int|
        0 <= i < lines.len() && 0 <= j < lines[i].len() ==> #[trigger] lines[i][j] != newline()
}

/// The lines with a newline after each of them, the last included.
pub open spec fn terminated(lines: Seq<Seq<char>>) -> Seq<char>
    decreases lines.len(),
{
    if lines.len() == 0 {
        Seq::empty()
    } else {
        terminated(lines.drop_last()) + lines.last() + seq![newline()]
    }
}

/// What a vector of lines holds, as sequences.
pub open spec fn lines_view(lines: Seq<Vec<char>>) -> Seq<Seq<char>> {
    Seq::new(lines.len(), |i: int| lines[i]@)
}

/// Every text has at least one line.
pub proof fn lemma_lines_nonempty(text: Seq<char>)
    ensures
        lines_of_text(text).len() >= 1,
    decreases text.len(),
{
    if text.len() > 0 {
        lemma_lines_nonempty(text.drop_last());
    }
}

/// Splitting a text into lines and joining them again gives the text back.
pub proof fn lemma_text_of_lines_of_text(text: Seq<char>)
    ensures
        text_of_lines(lines_of_text(text)) == text,
    decreases text.len(),
{
    if text.len() == 0 {
        assert(text_of_lines(lines_of_text(text)) =~= text);
    } else {
        let front = text.drop_last();
        let init = lines_of_text(front);
        lemma_text_of_lines_of_text(front);
        lemma_lines_nonempty(front);
        if text.last() == newline() {
            let all = init.push(Seq::empty());
            assert(all.drop_last() =~= init);
            assert(text_of_lines(all) =~= front + seq![newline()]);
            assert(front + seq![newline()] =~= text);
        } else {
            let grown = init.last().push(text.last());
            let all = init.update(init.len() - 1, grown);
            if init.len() == 1 {
                assert(text_of_lines(all) =~= front.push(text.last()));
            } else {
                assert(all.drop_last() =~= init.drop_last());
                assert(text_of_lines(all) =~= text_of_lines(init).push(text.last()));
            }
            assert(front.push(text.last()) =~= text);
        }
    }
}

/// Splitting after appending characters other than a newline extends the last line.
proof fn lemma_lines_append(text: Seq<char>, tail: Seq<char>)
    requires
        forall|j: int| 0 <= j < tail.len() ==> tail[j] != newline(),
    ensures
        lines_of_text(text + tail).len() == lines_of_text(text).len(),
        lines_of_text(text + tail) == lines_of_text(text).update(
            lines_of_text(text).len() - 1,
            lines_of_text(text).last() + tail,
        ),
    decreases tail.len(),
{
    lemma_lines_nonempty(text);
    let lines = lines_of_text(text);
    if tail.len() == 0 {
        assert(text + tail =~= text);
        assert(lines.last() + tail =~= lines.last());
        assert(lines.update(lines.len() - 1, lines.last()) =~= lines);
    } else {
        let shorter = tail.drop_last();
        lemma_lines_append(text, shorter);
        assert((text + tail).drop_last() =~= text + shorter);
        assert((text + tail).last() == tail.last());
        let mid = lines_of_text(text + shorter);
        assert(mid.last().push(tail.last()) =~= lines.last() + tail);
        assert(mid.update(mid.len() - 1, mid.last().push(tail.last())) =~= lines.update(
            lines.len() - 1,
            lines.last() + tail,
        ));
    }
}

/// Joining lines that hold no newline and splitting the text again gives the
/// lines back, provided there is at least one line.
pub proof fn lemma_lines_of_text_of_lines(lines: Seq<Seq<char>>)
    requires
        lines.len() >= 1,
        newline_free(lines),
    ensures
        lines_of_text(text_of_lines(lines)) == lines,
    decreases lines.len(),
{
    let last = lines.last();
    assert forall|j: int| 0 <= j < last.len() implies last[j] != newline() by {
        assert(lines[lines.len() - 1][j] != newline());
    }
    if lines.len() == 1 {
        lemma_lines_append(Seq::empty(), last);
        assert(Seq::<char>::empty() + last =~= last);
        assert(lines_of_text(Seq::<char>::empty()) =~= seq![Seq::<char>::empty()]);
        assert(lines_of_text(last) =~= lines);
    } else {
        let front = lines.drop_last();
        assert(newline_free(front)) by {
            assert forall|i: int, j: int|
                0 <= i < front.len() && 0 <= j < front[i].len() implies #[trigger] front[i][j]
                != newline() by {
                assert(lines[i][j] != newline());
            }
        }
        lemma_lines_of_text_of_lines(front);
        let head = text_of_lines(front) + seq![newline()];
        assert(head.drop_last() =~= text_of_lines(front));
        assert(lines_of_text(head) == front.push(Seq::empty()));
        lemma_lines_append(head, last);
        assert(Seq::<char>::empty() + last =~= last);
        assert(lines_of_text(head + last) =~= lines);
    }
}

/// The terminated text of a concatenation is the concatenation of the texts.
pub proof fn lemma_terminated_concat(a: Seq<Seq<char>>, b: Seq<Seq<char>>)
    ensures
        terminated(a + b) == terminated(a) + terminated(b),
    decreases b.len(),
{
    if b.len() == 0 {
        assert(a + b =~= a);
        assert(terminated(a) + terminated(b) =~= terminated(a));
    } else {
        lemma_terminated_concat(a, b.drop_last());
        assert((a + b).drop_last() =~= a + b.drop_last());
        assert((a + b).last() == b.last());
        assert(terminated(a + b) =~= terminated(a) + terminated(b));
    }
}

/// Joined lines, followed by one newline, are the terminated lines.
pub proof fn lemma_text_terminated(lines: Seq<Seq<char>>)
    requires
        lines.len() >= 1,
    ensures
        text_of_lines(lines) + seq![newline()] == terminated(lines),
    decreases lines.len(),
{
    if lines.len() == 1 {
        assert(terminated(lines.drop_last()) =~= Seq::<char>::empty());
        assert(text_of_lines(lines) + seq![newline()] =~= terminated(lines));
    } else {
        lemma_text_terminated(lines.drop_last());
        assert(text_of_lines(lines) + seq![newline()] =~= terminated(lines));
    }
}

/// A run of `n` spaces.
pub open spec fn spaces(n: nat) -> Seq<char> {
    Seq::new(n, |i: int| ' ')
}

/// The character of one decimal digit.
pub open spec fn digit(d: nat) -> char
    recommends
        d < 10,
{
    (48 + d) as u8 as char
}

/// A number written in decimal, without leading zeros.
pub open spec fn decimal(n: nat) -> Seq<char>
    decreases n,
{
    if n < 10 {
        seq![digit(n)]
    } else {
        decimal(n / 10).push(digit(n % 10))
    }
}

/// Splits a text at its newlines.
pub fn split_lines(text: &Vec<char>) -> (lines: Vec<Vec<char>>)
    ensures
        lines_view(lines@) == lines_of_text(text@),
{
    let mut lines: Vec<Vec<char>> = Vec::new();
    let mut current: Vec<char> = Vec::new();
    let mut i: usize = 0;
    proof {
        assert(text@.take(0) =~= Seq::<char>::empty());
        assert(lines_view(lines@).push(current@) =~= lines_of_text(text@.take(0)));
    }
    while i < text.len()
        invariant
            i <= text.len(),
            lines_view(lines@).push(current@) == lines_of_text(text@.take(i as int)),
        decreases text.len() - i,
    {
        let c = text[i];
        proof {
            let next = text@.take(i + 1);
            assert(next.drop_last() =~= text@.take(i as int));
            assert(next.last() == c);
        }
        let ghost before = lines_view(lines@).push(current@);
        if c == '\n' {
            lines.push(current);
            current = Vec::new();
            proof {
                assert(lines_view(lines@).push(current@) =~= before.push(Seq::empty()));
            }
        } else {
            current.push(c);
            proof {
                assert(lines_view(lines@).push(current@) =~= before.update(
                    before.len() - 1,
                    before.last().push(c),
                ));
            }
        }
        i += 1;
    }
    proof {
        assert(text@.take(i as int) =~= text@);
    }
    let ghost before = lines_view(lines@).push(current@);
    lines.push(current);
    proof {
        assert(lines_view(lines@) =~= before);
    }
    lines
}

/// Joins lines with one newline between neighbours.
pub fn join_lines(lines: &Vec<Vec<char>>) -> (text: Vec<char>)
    ensures
        text@ == text_of_lines(lines_view(lines@)),
{
    let mut text: Vec<char> = Vec::new();
    let mut i: usize = 0;
    proof {
        assert(lines_view(lines@).take(0) =~= Seq::<Seq<char>>::empty());
    }
    while i < lines.len()
        invariant
            i <= lines.len(),
            text@ == text_of_lines(lines_view(lines@).take(i as int)),
        decreases lines.len() - i,
    {
        let ghost before = text@;
        if i > 0 {
            text.push('\n');
        }
        let line = &lines[i];
        let mut j: usize = 0;
        let ghost start = text@;
        while j < line.len()
            invariant
                j <= line.len(),
                text@ == start + line@.take(j as int),
            decreases line.len() - j,
        {
            text.push(line[j]);
            proof {
                assert(line@.take(j + 1) =~= line@.take(j as int).push(line@[j as int]));
            }
            j += 1;
        }
        proof {
            assert(line@.take(j as int) =~= line@);
            let next = lines_view(lines@).take(i + 1);
            assert(next.drop_last() =~= lines_view(lines@).take(i as int));
            assert(next.last() == line@);
            if i == 0 {
                assert(text@ =~= line@);
            } else {
                assert(text@ =~= before + seq![newline()] + line@);
            }
        }
        i += 1;
    }
    proof {
        assert(lines_view(lines@).take(i as int) =~= lines_view(lines@));
    }
    text
}

/// Appends the characters of `s`.
pub fn push_str(out: &mut Vec<char>, s: &str)
    ensures
        final(out)@ == old(out)@ + s@,
{
    let n = s.unicode_len();
    let mut i: usize = 0;
    while i < n
        invariant
            i <= n,
            n == s@.len(),
            out@ == old(out)@ + s@.take(i as int),
        decreases n - i,
    {
        out.push(s.get_char(i));
        proof {
            assert(s@.take(i + 1) =~= s@.take(i as int).push(s@[i as int]));
        }
        i += 1;
    }
    proof {
        assert(s@.take(i as int) =~= s@);
    }
}

/// Appends the characters of `s`.
pub fn push_chars(out: &mut Vec<char>, s: &Vec<char>)
    ensures
        final(out)@ == old(out)@ + s@,
{
    let mut i: usize = 0;
    while i < s.len()
        invariant
            i <= s.len(),
            out@ == old(out)@ + s@.take(i as int),
        decreases s.len() - i,
    {
        out.push(s[i]);
        proof {
            assert(s@.take(i + 1) =~= s@.take(i as int).push(s@[i as int]));
        }
        i += 1;
    }
    proof {
        assert(s@.take(i as int) =~= s@);
    }
}

/// Appends `n` spaces.
pub fn push_spaces(out: &mut Vec<char>, n: usize)
    ensures
        final(out)@ == old(out)@ + spaces(n as nat),
{
    let mut i: usize = 0;
    while i < n
        invariant
            i <= n,
            out@ == old(out)@ + spaces(i as nat),
        decreases n - i,
    {
        out.push(' ');
        proof {
            assert(spaces((i + 1) as nat) =~= spaces(i as nat).push(' '));
        }
        i += 1;
    }
}

/// Appends `n` in decimal.
pub fn push_decimal(out: &mut Vec<char>, n: u128)
    ensures
        final(out)@ == old(out)@ + decimal(n as nat),
{
    let mut digits: Vec<char> = Vec::new();
    let mut rest: u128 = n;
    // `digits` holds the low digits of `n`, lowest first.
    while rest >= 10
        invariant
            decimal(n as nat) == decimal(rest as nat) + digits@.reverse(),
        decreases rest,
    {
        let d: u8 = (rest % 10) as u8;
        let c: char = (48 + d) as char;
        proof {
            assert(c == digit((rest % 10) as nat));
            assert(decimal(rest as nat) == decimal((rest / 10) as nat).push(c));
            assert(digits@.push(c).reverse() =~= seq![c] + digits@.reverse());
            assert(decimal((rest / 10) as nat).push(c) + digits@.reverse() =~= decimal(
                (rest / 10) as nat,
            ) + (seq![c] + digits@.reverse()));
        }
        digits.push(c);
        rest = rest / 10;
    }
    let lead: char = (48 + (rest as u8)) as char;
    out.push(lead);
    let ghost head = out@;
    let mut k: usize = digits.len();
    proof {
        assert(lead == digit(rest as nat));
        assert(digits@.reverse().take(0) =~= Seq::<char>::empty());
    }
    while k > 0
        invariant
            k <= digits.len(),
            out@ == head + digits@.reverse().take(digits.len() - k),
        decreases k,
    {
        k -= 1;
        out.push(digits[k]);
        proof {
            let r = digits@.reverse();
            assert(r.take(digits.len() - k) =~= r.take(digits.len() - k - 1).push(
                r[digits.len() - k - 1],
            ));
        }
    }
    proof {
        assert(digits@.reverse().take(digits.len() as int) =~= digits@.reverse());
        assert(out@ =~= old(out)@ + decimal(n as nat));
    }
}

} // verus!
