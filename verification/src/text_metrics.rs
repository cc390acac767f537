//! The box that a text annotation takes up, derived from its lines and its
//! font size.  Drawing, hit-testing and the resize handle all use this one
//! metric.

use vstd::prelude::*;
use crate::annotation::FONT_LIMIT;
use crate::annotation::TEXT_LIMIT;

verus! {

/// Number of line feeds in `s`.
pub open spec fn newline_count(s: Seq<char>) -> nat
    decreases s.len(),
{
    if s.len() == 0 {
        0
    } else {
        newline_count(s.drop_last()) + if s.last() == '\n' { 1nat } else { 0nat }
    }
}

/// Number of lines of `s`: a line ends at each line feed, and what follows
/// the last line feed is a line if it is not empty.
pub open spec fn line_count(s: Seq<char>) -> nat {
    newline_count(s) + if s.len() > 0 && s.last() != '\n' { 1nat } else { 0nat }
}

/// Number of characters after the last line feed of `s`.
pub open spec fn open_line_len(s: Seq<char>) -> nat
    decreases s.len(),
{
    if s.len() == 0 || s.last() == '\n' {
        0
    } else {
        open_line_len(s.drop_last()) + 1
    }
}

/// Length of the line that a line feed after `s` would end: a carriage
/// return just before the line feed does not count.
pub open spec fn closed_line_len(s: Seq<char>) -> nat {
    if s.len() > 0 && s.last() == '\r' {
        (open_line_len(s) - 1) as nat
    } else {
        open_line_len(s)
    }
}

/// Length of the longest line of `s` that a line feed ends.
pub open spec fn longest_closed_line(s: Seq<char>) -> nat
    decreases s.len(),
{
    if s.len() == 0 {
        0
    } else if s.last() == '\n' {
        let before = longest_closed_line(s.drop_last());
        let closed = closed_line_len(s.drop_last());
        if closed > before { closed } else { before }
    } else {
        longest_closed_line(s.drop_last())
    }
}

/// Length in characters of the longest line of `s`; 1 where `s` has no line.
pub open spec fn max_line_len(s: Seq<char>) -> nat {
    if line_count(s) == 0 {
        1
    } else if open_line_len(s) > longest_closed_line(s) {
        open_line_len(s)
    } else {
        longest_closed_line(s)
    }
}

/// Width of the box of a text: three fifths of the font size for each
/// character of the longest line.
pub open spec fn text_width_spec(s: Seq<char>, font_size: int) -> int {
    (max_line_len(s) * font_size * 3) / 5
}

/// Height of the box of a text: six fifths of the font size for each line,
/// and for one line where the text has none.
pub open spec fn text_height_spec(s: Seq<char>, font_size: int) -> int {
    let lines = if line_count(s) == 0 { 1 } else { line_count(s) as int };
    (font_size * lines * 6) / 5
}

proof fn lemma_line_bounds(s: Seq<char>)
    ensures
        newline_count(s) <= s.len(),
        line_count(s) <= s.len(),
        open_line_len(s) <= s.len(),
        longest_closed_line(s) <= s.len(),
        open_line_len(s) > 0 ==> s.len() > 0 && s.last() != '\n',
    decreases s.len(),
{
    if s.len() > 0 {
        lemma_line_bounds(s.drop_last());
    }
}

/// The extent is never negative and fits a stored size.
pub proof fn lemma_text_extent_bounds(s: Seq<char>, font_size: int)
    requires
        s.len() <= TEXT_LIMIT,
        0 <= font_size <= FONT_LIMIT,
    ensures
        0 <= text_width_spec(s, font_size) <= 600_000_000_000,
        0 <= text_height_spec(s, font_size) <= 1_200_000_000_000,
{
    lemma_line_bounds(s);
    let m = max_line_len(s) as int;
    let l = if line_count(s) == 0 { 1 } else { line_count(s) as int };
    assert(1 <= l <= 1_000_000);
    assert(0 <= m <= 1_000_000);
    assert(0 <= m * font_size * 3 <= 3_000_000_000_000) by (nonlinear_arith)
        requires
            0 <= m <= 1_000_000,
            0 <= font_size <= 1_000_000,
    ;
    assert(0 <= font_size * l * 6 <= 6_000_000_000_000) by (nonlinear_arith)
        requires
            1 <= l <= 1_000_000,
            0 <= font_size <= 1_000_000,
    ;
}

/// Line count and longest line of a text, each as `line_count` and
/// `max_line_len` define it.
pub fn measure_lines(text: &str) -> (r: (usize, usize))
    ensures
        r.0 == line_count(text@),
        r.1 == max_line_len(text@),
{
    let n: usize = text.unicode_len();
    let ascii: bool = text.is_ascii();
    let mut i: usize = 0;
    let mut newlines: usize = 0;
    let mut open: usize = 0;
    let mut longest: usize = 0;
    let mut prev_cr: bool = false;
    let mut prev_lf: bool = false;
    while i < n
        invariant
            n == text@.len(),
            ascii ==> text.is_ascii(),
            i <= n,
            newlines == newline_count(text@.take(i as int)),
            open == open_line_len(text@.take(i as int)),
            longest == longest_closed_line(text@.take(i as int)),
            prev_cr == (i > 0 && text@[i - 1] == '\r'),
            prev_lf == (i > 0 && text@[i - 1] == '\n'),
        decreases n - i,
    {
        let (is_lf, is_cr) = if ascii {
            let b = text.get_ascii(i);
            (b == 10, b == 13)
        } else {
            let c = text.get_char(i);
            (c == '\n', c == '\r')
        };
        proof {
            let before = text@.take(i as int);
            let after = text@.take(i + 1);
            assert(after.drop_last() =~= before);
            assert(after.last() == text@[i as int]);
            assert(is_lf == (text@[i as int] == '\n'));
            assert(is_cr == (text@[i as int] == '\r'));
            lemma_line_bounds(before);
            if i > 0 {
                assert(before.last() == text@[i - 1]);
            }
        }
        if is_lf {
            let closed: usize = if prev_cr { open - 1 } else { open };
            if closed > longest {
                longest = closed;
            }
            newlines = newlines + 1;
            open = 0;
        } else {
            open = open + 1;
        }
        prev_cr = is_cr;
        prev_lf = is_lf;
        i = i + 1;
    }
    proof {
        assert(text@.take(n as int) =~= text@);
        lemma_line_bounds(text@);
        if n > 0 {
            assert(text@.last() == text@[n - 1]);
        }
    }
    let lines: usize = if n > 0 && !prev_lf { newlines + 1 } else { newlines };
    if lines == 0 {
        (0, 1)
    } else if open > longest {
        (lines, open)
    } else {
        (lines, longest)
    }
}

/// Width and height of the box of `text` at `font_size`.
pub fn text_extent(text: &str, font_size: i64) -> (r: (i64, i64))
    requires
        text@.len() <= TEXT_LIMIT,
        0 <= font_size <= FONT_LIMIT,
    ensures
        r.0 == text_width_spec(text@, font_size as int),
        r.1 == text_height_spec(text@, font_size as int),
        0 <= r.0 <= 600_000_000_000,
        0 <= r.1 <= 1_200_000_000_000,
{
    let (lines, longest) = measure_lines(text);
    proof {
        lemma_text_extent_bounds(text@, font_size as int);
        lemma_line_bounds(text@);
    }
    let l: i64 = if lines == 0 { 1 } else { lines as i64 };
    let m: i64 = longest as i64;
    assert(0 <= m * font_size <= 1_000_000_000_000) by (nonlinear_arith)
        requires
            0 <= m <= 1_000_000,
            0 <= font_size <= 1_000_000,
    ;
    assert(0 <= font_size * l <= 1_000_000_000_000) by (nonlinear_arith)
        requires
            1 <= l <= 1_000_000,
            0 <= font_size <= 1_000_000,
    ;
    let w: i64 = (m * font_size * 3) / 5;
    let h: i64 = (font_size * l * 6) / 5;
    (w, h)
}

} // verus!
