//! Greedy word wrapping that also reports where the cursor stands before and
//! after every character of the input.

use crate::text::{chars_of, is_whitespace, is_whitespace_spec};
use vstd::prelude::*;

verus! {

/// A text broken into lines of bounded width.
#[derive(Debug, Clone)]
pub struct WrappedText {
    /// The input with the line breaks of the layout inserted.
    pub rendered: String,
    /// For each character boundary of the input, the `(line, column)` of the cursor.
    pub positions: Vec<(u16, u16)>,
    /// How many lines the layout occupies.
    pub line_count: u16,
}

/// The layout after some prefix of the input has been placed.
pub struct Layout {
    pub rendered: Seq<char>,
    pub positions: Seq<(u16, u16)>,
    pub line: u16,
    pub col: nat,
}

/// A width of zero is laid out as a width of one.
pub open spec fn effective_width(width: u16) -> nat {
    if width == 0 {
        1
    } else {
        width as nat
    }
}

/// One more line, stopping at the largest line number.
pub open spec fn next_line(line: u16) -> u16 {
    if line == u16::MAX {
        line
    } else {
        (line + 1) as u16
    }
}

/// Length of the run of non-blank characters that starts at `i`.
pub open spec fn word_length_at(chars: Seq<char>, i: int) -> nat
    decreases chars.len() - i,
{
    if i < 0 || i >= chars.len() || is_whitespace_spec(chars[i]) {
        0
    } else {
        1 + word_length_at(chars, i + 1)
    }
}

/// The sum of a column and a length, stopping at the largest `usize`.
pub open spec fn saturated_sum(col: nat, length: nat) -> nat {
    if col + length > usize::MAX {
        usize::MAX as nat
    } else {
        col + length
    }
}

/// A run of `length` characters that starts a word at `i` moves to a fresh
/// line when it does not fit in what is left of the current line but would
/// fit on a line of its own. The column and the length are summed up to
/// the largest `usize` and no further.
pub open spec fn breaks_before_run(
    chars: Seq<char>,
    i: int,
    col: nat,
    width: nat,
    length: nat,
) -> bool {
    &&& col != 0
    &&& !is_whitespace_spec(chars[i])
    &&& (i == 0 || is_whitespace_spec(chars[i - 1]))
    &&& length <= width
    &&& saturated_sum(col, length) > width
}

/// A word that starts at `i` moves to a fresh line when it does not fit in
/// what is left of the current line but would fit on a line of its own.
pub open spec fn breaks_before_word(chars: Seq<char>, i: int, col: nat, width: nat) -> bool {
    breaks_before_run(chars, i, col, width, word_length_at(chars, i))
}

/// The layout before anything is placed: the cursor at the origin.
pub open spec fn empty_layout() -> Layout {
    Layout { rendered: Seq::empty(), positions: seq![(0u16, 0u16)], line: 0, col: 0 }
}

/// Places the character at index `i`.
///
/// A line feed ends the line. Any other character is put on the current
/// line, after a break if a word has to move down or the line is full, and
/// a line that it fills is ended at once.
pub open spec fn place(before: Layout, chars: Seq<char>, i: int, width: nat) -> Layout {
    let ch = chars[i];
    if ch == '\n' {
        let line = next_line(before.line);
        Layout {
            rendered: before.rendered.push('\n'),
            positions: before.positions.push((line, 0u16)),
            line,
            col: 0,
        }
    } else {
        let broke = breaks_before_word(chars, i, before.col, width) || before.col >= width;
        let rendered = if broke {
            before.rendered.push('\n').push(ch)
        } else {
            before.rendered.push(ch)
        };
        let line = if broke {
            next_line(before.line)
        } else {
            before.line
        };
        let col = if broke {
            1
        } else {
            before.col + 1
        };
        if col >= width {
            Layout {
                rendered: rendered.push('\n'),
                positions: before.positions.push((next_line(line), 0u16)),
                line: next_line(line),
                col: 0,
            }
        } else {
            Layout {
                rendered,
                positions: before.positions.push((line, col as u16)),
                line,
                col,
            }
        }
    }
}

/// The layout after the first `n` characters have been placed.
pub open spec fn layout_prefix(chars: Seq<char>, n: nat, width: nat) -> Layout
    decreases n,
{
    if n == 0 {
        empty_layout()
    } else {
        place(layout_prefix(chars, (n - 1) as nat, width), chars, n - 1, width)
    }
}

/// The layout of the whole text.
pub open spec fn layout_of(chars: Seq<char>, width: nat) -> Layout {
    layout_prefix(chars, chars.len(), width)
}

/// The largest line number among `positions`, zero when there is none.
pub open spec fn max_line(positions: Seq<(u16, u16)>) -> u16
    decreases positions.len(),
{
    if positions.len() == 0 {
        0
    } else {
        let rest = max_line(positions.drop_last());
        if positions.last().0 > rest {
            positions.last().0
        } else {
            rest
        }
    }
}

/// Shape of every layout: one position per character boundary, the first at
/// the origin, the cursor at the last position, every column inside the
/// width, and line numbers that never go back.
pub proof fn lemma_layout_shape(chars: Seq<char>, n: nat, width: nat)
    requires
        n <= chars.len(),
        1 <= width <= u16::MAX,
    ensures
        ({
            let l = layout_prefix(chars, n, width);
            &&& l.positions.len() == n + 1
            &&& l.positions[0] == (0u16, 0u16)
            &&& l.positions.last() == (l.line, l.col as u16)
            &&& l.col < width
            &&& forall|i: int| 0 <= i <= n ==> (#[trigger] l.positions[i]).1 < width
            &&& forall|i: int, j: int|
                0 <= i <= j <= n ==> (#[trigger] l.positions[i]).0 <= (#[trigger] l.positions[j]).0
            &&& max_line(l.positions) == l.line
        }),
    decreases n,
{
    if n > 0 {
        lemma_layout_shape(chars, (n - 1) as nat, width);
        let before = layout_prefix(chars, (n - 1) as nat, width);
        let l = layout_prefix(chars, n, width);
        assert(l.positions.drop_last() == before.positions);
        assert(before.line <= l.line);
        assert(max_line(l.positions) == l.line);
        assert forall|i: int, j: int| 0 <= i <= j <= n implies (#[trigger] l.positions[i]).0 <= (
        #[trigger] l.positions[j]).0 by {
            if j < n {
                assert(l.positions[i] == before.positions[i]);
                assert(l.positions[j] == before.positions[j]);
            } else if i < n {
                assert(l.positions[i] == before.positions[i]);
                assert(before.positions[i].0 <= before.positions[n - 1].0);
            }
        }
    } else {
        let l = layout_prefix(chars, 0, width);
        assert(l.positions.drop_last() == Seq::<(u16, u16)>::empty());
        assert(max_line(l.positions.drop_last()) == 0);
        assert(max_line(l.positions) == 0);
    }
}

/// A text without its line feeds.
pub open spec fn without_breaks(s: Seq<char>) -> Seq<char>
    decreases s.len(),
{
    if s.len() == 0 {
        Seq::empty()
    } else if s.last() == '\n' {
        without_breaks(s.drop_last())
    } else {
        without_breaks(s.drop_last()).push(s.last())
    }
}

/// What one more character does to a text without its line feeds: a line
/// feed nothing, any other character is added.
pub proof fn lemma_without_breaks_push(s: Seq<char>, c: char)
    ensures
        without_breaks(s.push(c)) == if c == '\n' {
            without_breaks(s)
        } else {
            without_breaks(s).push(c)
        },
{
    assert(s.push(c).drop_last() == s);
}

/// A layout adds line feeds and nothing else: but for line feeds, what is
/// rendered is the text that was laid out.
pub proof fn lemma_layout_keeps_text(chars: Seq<char>, n: nat, width: nat)
    requires
        n <= chars.len(),
    ensures
        without_breaks(layout_prefix(chars, n, width).rendered) == without_breaks(
            chars.take(n as int),
        ),
    decreases n,
{
    if n == 0 {
        assert(chars.take(0) =~= Seq::empty());
    } else {
        lemma_layout_keeps_text(chars, (n - 1) as nat, width);
        let before = layout_prefix(chars, (n - 1) as nat, width).rendered;
        let ch = chars[n - 1];
        assert(chars.take(n as int) == chars.take(n - 1).push(ch));
        lemma_without_breaks_push(chars.take(n - 1), ch);
        lemma_without_breaks_push(before, '\n');
        lemma_without_breaks_push(before, ch);
        lemma_without_breaks_push(before.push('\n'), ch);
        lemma_without_breaks_push(before.push(ch), '\n');
        lemma_without_breaks_push(before.push('\n').push(ch), '\n');
    }
}

/// For every index, the length of the run of non-blank characters that
/// starts there.
pub fn word_lengths_from_each_index(chars: &[char]) -> (out: Vec<usize>)
    ensures
        out.len() == chars.len(),
        forall|i: int| 0 <= i < chars.len() ==> out[i] == word_length_at(chars@, i),
{
    let n: usize = chars.len();
    let mut out: Vec<usize> = Vec::new();
    while out.len() < n
        invariant
            out.len() <= n,
        decreases n - out.len(),
    {
        out.push(0);
    }
    let mut run: usize = 0;
    let mut idx: usize = n;
    while idx > 0
        invariant
            idx <= n == chars.len() == out.len(),
            run == word_length_at(chars@, idx as int),
            run <= n - idx,
            forall|i: int| idx <= i < n ==> out[i] == word_length_at(chars@, i),
        decreases idx,
    {
        idx -= 1;
        if is_whitespace(chars[idx]) {
            run = 0;
        } else {
            run = run + 1;
        }
        out.set(idx, run);
    }
    out
}

/// Whether the word that starts at `idx`, of the length that
/// `word_lengths` gives for it, has to move to a fresh line.
pub fn should_wrap_before_word(
    chars: &[char],
    word_lengths: &[usize],
    idx: usize,
    col: usize,
    width: usize,
) -> (wrap: bool)
    requires
        idx < chars.len(),
        idx < word_lengths.len(),
    ensures
        wrap == breaks_before_run(
            chars@,
            idx as int,
            col as nat,
            width as nat,
            word_lengths[idx as int] as nat,
        ),
{
    if col == 0 {
        return false;
    }
    if is_whitespace(chars[idx]) {
        return false;
    }
    if idx > 0 {
        if !is_whitespace(chars[idx - 1]) {
            return false;
        }
    }
    let word_len: usize = word_lengths[idx];
    word_len <= width && col.saturating_add(word_len) > width
}

/// Wraps `text` to lines of at most `width` columns, breaking between words
/// where a word fits on a line and inside a word where it does not.
///
/// `positions` has one entry per character boundary of `text`, so one more
/// than it has characters, each with a column inside the width, and
/// `line_count` is one more than the largest line among them (stopping at
/// the largest `u16`). But for line feeds, `rendered` is `text`.
pub fn wrap_word_with_positions(text: &str, width: u16) -> (wrapped: WrappedText)
    ensures
        wrapped.rendered@ == layout_of(text@, effective_width(width)).rendered,
        wrapped.positions@ == layout_of(text@, effective_width(width)).positions,
        wrapped.line_count == next_line(max_line(wrapped.positions@)),
        wrapped.line_count == next_line(layout_of(text@, effective_width(width)).line),
        wrapped.positions@.len() == text@.len() + 1,
        wrapped.positions@[0] == (0u16, 0u16),
        forall|i: int|
            0 <= i < wrapped.positions@.len() ==> (#[trigger] wrapped.positions@[i]).1
                < effective_width(width),
        without_breaks(wrapped.rendered@) == without_breaks(text@),
{
    let width: u16 = if width == 0 {
        1
    } else {
        width
    };
    let width_usize: usize = width as usize;
    let chars = chars_of(text);
    let word_lengths = word_lengths_from_each_index(chars.as_slice());
    let mut rendered = String::new();
    let mut positions: Vec<(u16, u16)> = Vec::new();
    let mut line: u16 = 0;
    let mut col: usize = 0;

    positions.push((line, 0));

    let n: usize = chars.len();
    let mut idx: usize = 0;
    while idx < n
        invariant
            idx <= n == chars.len() == word_lengths.len(),
            chars@ == text@,
            1 <= width_usize == width <= u16::MAX,
            forall|i: int| 0 <= i < n ==> word_lengths[i] == word_length_at(chars@, i),
            col < width_usize,
            rendered@ == layout_prefix(chars@, idx as nat, width as nat).rendered,
            positions@ == layout_prefix(chars@, idx as nat, width as nat).positions,
            line == layout_prefix(chars@, idx as nat, width as nat).line,
            col == layout_prefix(chars@, idx as nat, width as nat).col,
        decreases n - idx,
    {
        let ch: char = chars[idx];
        if ch == '\n' {
            rendered.push('\n');
            line = line.saturating_add(1);
            col = 0;
            positions.push((line, 0));
        } else {
            if should_wrap_before_word(
                chars.as_slice(),
                word_lengths.as_slice(),
                idx,
                col,
                width_usize,
            ) {
                rendered.push('\n');
                line = line.saturating_add(1);
                col = 0;
            } else if col >= width_usize {
                rendered.push('\n');
                line = line.saturating_add(1);
                col = 0;
            }
            rendered.push(ch);
            col = col + 1;
            if col >= width_usize {
                rendered.push('\n');
                line = line.saturating_add(1);
                col = 0;
            }
            positions.push((line, col as u16));
        }
        idx += 1;
    }

    proof {
        lemma_layout_shape(chars@, n as nat, width as nat);
        lemma_layout_keeps_text(chars@, n as nat, width as nat);
        assert(chars@.take(n as int) == chars@);
    }
    let line_count: u16 = largest_line(&positions).saturating_add(1);

    WrappedText { rendered, positions, line_count }
}

/// The largest line number among `positions`, zero when there is none.
fn largest_line(positions: &Vec<(u16, u16)>) -> (max: u16)
    ensures
        max == max_line(positions@),
{
    let mut max: u16 = 0;
    let mut i: usize = 0;
    while i < positions.len()
        invariant
            i <= positions.len(),
            max == max_line(positions@.take(i as int)),
        decreases positions.len() - i,
    {
        if positions[i].0 > max {
            max = positions[i].0;
        }
        i += 1;
        assert(positions@.take(i as int).drop_last() == positions@.take(i - 1));
    }
    assert(positions@.take(i as int) == positions@);
    max
}

} // verus!
