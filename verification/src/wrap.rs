//! Wrapping text to a width, without breaking words.
//!
//! A text is cut into lines at its spaces only: each cut turns one space
//! into a line feed and changes nothing else. Line feeds that the text
//! already holds end a line as they stand.

use vstd::prelude::*;
use vstd::string::*;

use crate::text::chars_of;

verus! {

/// The index of the first line feed at or after `from`, or the length of the
/// text where there is none.
pub open spec fn line_end(text: Seq<char>, from: int) -> int
    decreases text.len() - from,
{
    if from < 0 || from >= text.len() {
        text.len() as int
    } else if text[from] == '\n' {
        from
    } else {
        line_end(text, from + 1)
    }
}

/// The index of the last space between `from` and `upto`, both included, or
/// `from - 1` where there is none.
pub open spec fn last_space(text: Seq<char>, from: int, upto: int) -> int
    decreases upto - from + 1,
{
    if upto < from {
        from - 1
    } else if 0 <= upto < text.len() && text[upto] == ' ' {
        upto
    } else {
        last_space(text, from, upto - 1)
    }
}

/// The index of the first space or line feed at or after `from`, or the
/// length of the text where there is none.
pub open spec fn next_gap(text: Seq<char>, from: int) -> int
    decreases text.len() - from,
{
    if from < 0 || from >= text.len() {
        text.len() as int
    } else if text[from] == ' ' || text[from] == '\n' {
        from
    } else {
        next_gap(text, from + 1)
    }
}

/// Where the line that starts at `from` ends when lines are `width` wide.
///
/// A line that fits ends where the text ends it. A longer one ends at its
/// last space that leaves at most `width` characters before it; where no
/// space does, the line holds one word that is too long, and ends where that
/// word ends.
pub open spec fn cut(text: Seq<char>, from: int, width: nat) -> int {
    let end = line_end(text, from);
    if end - from <= width {
        end
    } else {
        let space = last_space(text, from, from + width);
        if space >= from {
            space
        } else {
            next_gap(text, from + width + 1)
        }
    }
}

/// The part of the text from `from` on, wrapped to `width`.
pub open spec fn wrap_from(text: Seq<char>, from: int, width: nat) -> Seq<char>
    decreases text.len() - from,
{
    if from < 0 || from >= text.len() {
        Seq::empty()
    } else {
        let at = cut(text, from, width);
        if at >= text.len() {
            text.subrange(from, text.len() as int)
        } else {
            proof {
                lemma_cut_ends_line(text, from, width);
            }
            text.subrange(from, at).push('\n') + wrap_from(text, at + 1, width)
        }
    }
}

/// The text wrapped to `width`: its lines joined by line feeds.
pub open spec fn wrapped(text: Seq<char>, width: nat) -> Seq<char> {
    wrap_from(text, 0, width)
}

/// Whether no character of `text` between `from` and `to` is `c`.
pub open spec fn free_of(text: Seq<char>, c: char, from: int, to: int) -> bool {
    forall|k: int| from <= k < to && 0 <= k < text.len() ==> text[k] != c
}

/// `line_end` finds the first line feed at or after `from`.
pub proof fn lemma_line_end(text: Seq<char>, from: int)
    requires
        0 <= from <= text.len(),
    ensures
        from <= line_end(text, from) <= text.len(),
        line_end(text, from) < text.len() ==> text[line_end(text, from)] == '\n',
        free_of(text, '\n', from, line_end(text, from)),
    decreases text.len() - from,
{
    if from < text.len() && text[from] != '\n' {
        lemma_line_end(text, from + 1);
    }
}

/// `last_space` finds the last space between `from` and `upto`.
pub proof fn lemma_last_space(text: Seq<char>, from: int, upto: int)
    requires
        0 <= from,
        from - 1 <= upto < text.len(),
    ensures
        from - 1 <= last_space(text, from, upto) <= upto,
        last_space(text, from, upto) >= from ==> text[last_space(text, from, upto)] == ' ',
        free_of(text, ' ', last_space(text, from, upto) + 1, upto + 1),
    decreases upto - from + 1,
{
    if upto >= from && text[upto] != ' ' {
        lemma_last_space(text, from, upto - 1);
    }
}

/// `next_gap` finds the first space or line feed at or after `from`.
pub proof fn lemma_next_gap(text: Seq<char>, from: int)
    requires
        0 <= from <= text.len(),
    ensures
        from <= next_gap(text, from) <= text.len(),
        next_gap(text, from) < text.len() ==> text[next_gap(text, from)] == ' ' || text[next_gap(
            text,
            from,
        )] == '\n',
        free_of(text, ' ', from, next_gap(text, from)),
        free_of(text, '\n', from, next_gap(text, from)),
    decreases text.len() - from,
{
    if from < text.len() && text[from] != ' ' && text[from] != '\n' {
        lemma_next_gap(text, from + 1);
    }
}

/// A line is cut at a space or a line feed, or runs to the end of the text.
/// It holds no line feed, and it is at most `width` long unless it holds no
/// space.
pub proof fn lemma_cut_ends_line(text: Seq<char>, from: int, width: nat)
    requires
        0 <= from <= text.len(),
    ensures
        from <= cut(text, from, width) <= text.len(),
        cut(text, from, width) < text.len() ==> text[cut(text, from, width)] == ' ' || text[cut(
            text,
            from,
            width,
        )] == '\n',
        free_of(text, '\n', from, cut(text, from, width)),
        cut(text, from, width) - from <= width || free_of(
            text,
            ' ',
            from,
            cut(text, from, width),
        ),
{
    lemma_line_end(text, from);
    let end = line_end(text, from);
    if end - from > width {
        lemma_last_space(text, from, from + width);
        let space = last_space(text, from, from + width);
        if space < from {
            lemma_next_gap(text, from + width + 1);
            let gap = next_gap(text, from + width + 1);
            assert(gap <= end) by {
                if gap > end {
                    assert(text[end] == '\n');
                }
            }
        }
    }
}

/// From `from` on, wrapping keeps the length of the text and every
/// character of it, but for the spaces that it turns into line feeds.
pub proof fn lemma_wrap_from_keeps_text(text: Seq<char>, from: int, width: nat)
    requires
        0 <= from <= text.len(),
    ensures
        wrap_from(text, from, width).len() == text.len() - from,
        forall|i: int|
            #![trigger wrap_from(text, from, width)[i]]
            0 <= i < text.len() - from ==> {
                ||| wrap_from(text, from, width)[i] == text[from + i]
                ||| text[from + i] == ' ' && wrap_from(text, from, width)[i] == '\n'
            },
    decreases text.len() - from,
{
    if from < text.len() {
        lemma_cut_ends_line(text, from, width);
        let at = cut(text, from, width);
        if at < text.len() {
            lemma_wrap_from_keeps_text(text, at + 1, width);
            let out = wrap_from(text, from, width);
            let rest = wrap_from(text, at + 1, width);
            assert forall|i: int| 0 <= i < text.len() - from implies {
                ||| #[trigger] out[i] == text[from + i]
                ||| text[from + i] == ' ' && out[i] == '\n'
            } by {
                if i > at - from {
                    assert(out[i] == rest[i - (at - from) - 1]);
                }
            }
        }
    }
}

/// From `from` on, a text that is no longer than `width` is left as it is.
pub proof fn lemma_wrap_from_short(text: Seq<char>, from: int, width: nat)
    requires
        0 <= from <= text.len(),
        text.len() - from <= width,
    ensures
        wrap_from(text, from, width) == text.subrange(from, text.len() as int),
    decreases text.len() - from,
{
    if from < text.len() {
        lemma_line_end(text, from);
        let at = cut(text, from, width);
        if at < text.len() {
            lemma_wrap_from_short(text, at + 1, width);
            assert(wrap_from(text, from, width) =~= text.subrange(from, text.len() as int));
        }
    } else {
        assert(wrap_from(text, from, width) =~= text.subrange(from, text.len() as int));
    }
}

/// From `from` on, a stretch of the wrapped text that is longer than `width`
/// and holds no line feed holds no space either.
pub proof fn lemma_wrap_from_lines_fit(text: Seq<char>, from: int, width: nat, a: int, b: int)
    requires
        0 <= from <= text.len(),
        0 <= a <= b <= text.len() - from,
        b - a > width,
        free_of(wrap_from(text, from, width), '\n', a, b),
    ensures
        free_of(wrap_from(text, from, width), ' ', a, b),
    decreases text.len() - from,
{
    lemma_wrap_from_keeps_text(text, from, width);
    let out = wrap_from(text, from, width);
    if from < text.len() {
        lemma_cut_ends_line(text, from, width);
        let at = cut(text, from, width);
        let head = at - from;
        if at < text.len() {
            let rest = wrap_from(text, at + 1, width);
            lemma_wrap_from_keeps_text(text, at + 1, width);
            assert(out[head] == '\n');
            if a > head {
                assert forall|k: int| a - head - 1 <= k < b - head - 1 implies rest[k] != '\n' by {
                    assert(out[k + head + 1] == rest[k]);
                }
                lemma_wrap_from_lines_fit(text, at + 1, width, a - head - 1, b - head - 1);
                assert forall|k: int| a <= k < b implies out[k] != ' ' by {
                    assert(out[k] == rest[k - head - 1]);
                }
            } else {
                assert(b <= head);
                assert forall|k: int| a <= k < b implies out[k] != ' ' by {
                    assert(out[k] == text[from + k]);
                }
            }
        } else {
            assert forall|k: int| a <= k < b implies out[k] != ' ' by {
                assert(out[k] == text[from + k]);
            }
        }
    }
}

/// Wrapping changes nothing but spaces, and those into line feeds: the
/// wrapped text is as long as the text, and holds the same character at each
/// place but where it cuts a line at a space. No word is broken, and putting
/// the spaces back gives the text again.
pub proof fn lemma_wrapped_keeps_text(text: Seq<char>, width: nat)
    ensures
        wrapped(text, width).len() == text.len(),
        forall|i: int|
            #![trigger wrapped(text, width)[i]]
            0 <= i < text.len() ==> {
                ||| wrapped(text, width)[i] == text[i]
                ||| text[i] == ' ' && wrapped(text, width)[i] == '\n'
            },
{
    lemma_wrap_from_keeps_text(text, 0, width);
}

/// A text that is no longer than `width` is left as it is.
pub proof fn lemma_short_text_unchanged(text: Seq<char>, width: nat)
    requires
        text.len() <= width,
    ensures
        wrapped(text, width) == text,
{
    lemma_wrap_from_short(text, 0, width);
    assert(text.subrange(0, text.len() as int) =~= text);
}

/// Every line of the wrapped text is at most `width` long, unless it is a
/// single word: a stretch of more than `width` characters that holds no line
/// feed holds no space either.
pub proof fn lemma_wrapped_lines_fit(text: Seq<char>, width: nat, a: int, b: int)
    requires
        0 <= a <= b <= text.len(),
        b - a > width,
        free_of(wrapped(text, width), '\n', a, b),
    ensures
        free_of(wrapped(text, width), ' ', a, b),
{
    lemma_wrap_from_lines_fit(text, 0, width, a, b);
}

/// Finds where the line that starts at `from` ends.
fn cut_at(chars: &Vec<char>, from: usize, width: usize) -> (at: usize)
    requires
        from < chars@.len(),
    ensures
        at == cut(chars@, from as int, width as nat),
        from <= at <= chars@.len(),
{
    let n = chars.len();
    let mut i = from;
    while i < n && i - from <= width
        invariant
            n == chars@.len(),
            from <= i <= n,
            i - from <= width + 1,
            line_end(chars@, from as int) == line_end(chars@, i as int),
        decreases n - i,
    {
        if chars[i] == '\n' {
            return i;
        }
        i += 1;
    }
    if i - from <= width {
        return n;
    }
    proof {
        lemma_line_end(chars@, i as int);
    }
    let mut k = i;
    while k > from
        invariant
            n == chars@.len(),
            from <= k <= i <= n,
            i == from + width + 1,
            line_end(chars@, from as int) - from > width,
            last_space(chars@, from as int, from + width) == last_space(
                chars@,
                from as int,
                k - 1,
            ),
        decreases k,
    {
        if chars[k - 1] == ' ' {
            return k - 1;
        }
        k -= 1;
    }
    let mut m = i;
    while m < n
        invariant
            n == chars@.len(),
            from <= i <= m <= n,
            i == from + width + 1,
            line_end(chars@, from as int) - from > width,
            last_space(chars@, from as int, from + width) < from,
            next_gap(chars@, i as int) == next_gap(chars@, m as int),
        decreases n - m,
    {
        if chars[m] == ' ' || chars[m] == '\n' {
            return m;
        }
        m += 1;
    }
    n
}

/// Wraps a text to lines of at most `width` characters, cutting at spaces
/// only. A word longer than `width` gets a line of its own and stays whole.
pub fn wrap_text(text: &str, width: usize) -> (out: String)
    ensures
        out@ == wrapped(text@, width as nat),
{
    let chars = chars_of(text);
    let n = chars.len();
    let mut out = String::new();
    let mut from: usize = 0;
    proof {
        reveal_strlit("\n");
    }
    while from < n
        invariant
            n == chars@.len(),
            chars@ == text@,
            from <= n,
            "\n"@ == seq!['\n'],
            wrapped(text@, width as nat) == out@ + wrap_from(text@, from as int, width as nat),
        decreases n - from,
    {
        let at = cut_at(&chars, from, width);
        if at >= n {
            out.append(text.substring_char(from, n));
            return out;
        }
        out.append(text.substring_char(from, at));
        out.append("\n");
        assert(out@ + wrap_from(text@, at + 1, width as nat) =~= wrapped(text@, width as nat));
        from = at + 1;
    }
    assert(out@ + wrap_from(text@, from as int, width as nat) =~= out@);
    out
}

} // verus!
