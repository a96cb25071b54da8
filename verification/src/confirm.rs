//! Reading a yes-or-no answer.
//!
//! An answer says yes where, once the white space around it is gone, it is
//! `y` or `yes` in any letter case. Every other answer says no.

use vstd::prelude::*;

use crate::text::chars_of;

verus! {

/// Whether a character is white space: one of the characters with the
/// Unicode property `White_Space`.
pub open spec fn is_blank(c: char) -> bool {
    let code = c as u32;
    ||| 0x09 <= code <= 0x0D
    ||| code == 0x20
    ||| code == 0x85
    ||| code == 0xA0
    ||| code == 0x1680
    ||| 0x2000 <= code <= 0x200A
    ||| code == 0x2028
    ||| code == 0x2029
    ||| code == 0x202F
    ||| code == 0x205F
    ||| code == 0x3000
}

/// The index of the first character at or after `from` that is not white
/// space, or the length of the text where there is none.
pub open spec fn skip_blanks(text: Seq<char>, from: int) -> int
    decreases text.len() - from,
{
    if from < 0 || from >= text.len() {
        text.len() as int
    } else if !is_blank(text[from]) {
        from
    } else {
        skip_blanks(text, from + 1)
    }
}

/// The index after the last character before `upto` that is not white
/// space, or `0` where there is none.
pub open spec fn drop_blanks(text: Seq<char>, upto: int) -> int
    decreases upto,
{
    if upto <= 0 || upto > text.len() {
        0
    } else if !is_blank(text[upto - 1]) {
        upto
    } else {
        drop_blanks(text, upto - 1)
    }
}

/// The text without the white space at its start and at its end.
pub open spec fn trimmed(text: Seq<char>) -> Seq<char> {
    let start = skip_blanks(text, 0);
    let end = drop_blanks(text, text.len() as int);
    if start < end {
        text.subrange(start, end)
    } else {
        Seq::empty()
    }
}

/// Whether a word is `y` or `yes`, in any letter case.
pub open spec fn is_yes(word: Seq<char>) -> bool {
    ||| word.len() == 1 && (word[0] == 'y' || word[0] == 'Y')
    ||| {
        &&& word.len() == 3
        &&& (word[0] == 'y' || word[0] == 'Y')
        &&& (word[1] == 'e' || word[1] == 'E')
        &&& (word[2] == 's' || word[2] == 'S')
    }
}

/// Whether an answer says yes.
pub open spec fn affirmative(answer: Seq<char>) -> bool {
    is_yes(trimmed(answer))
}

/// Whether a character is white space.
pub fn is_whitespace(c: char) -> (blank: bool)
    ensures
        blank == is_blank(c),
{
    let code = c as u32;
    (0x09 <= code && code <= 0x0D) || code == 0x20 || code == 0x85 || code == 0xA0 || code
        == 0x1680 || (0x2000 <= code && code <= 0x200A) || code == 0x2028 || code == 0x2029 || code
        == 0x202F || code == 0x205F || code == 0x3000
}

/// Finds the first character that is not white space.
fn start_of_word(chars: &Vec<char>) -> (start: usize)
    ensures
        start == skip_blanks(chars@, 0),
        start <= chars@.len(),
{
    let n = chars.len();
    let mut start: usize = 0;
    while start < n
        invariant
            n == chars@.len(),
            start <= n,
            skip_blanks(chars@, 0) == skip_blanks(chars@, start as int),
        decreases n - start,
    {
        if !is_whitespace(chars[start]) {
            return start;
        }
        start += 1;
    }
    n
}

/// Finds the end of the last character that is not white space.
fn end_of_word(chars: &Vec<char>) -> (end: usize)
    ensures
        end == drop_blanks(chars@, chars@.len() as int),
        end <= chars@.len(),
{
    let n = chars.len();
    let mut end: usize = n;
    while end > 0
        invariant
            n == chars@.len(),
            end <= n,
            drop_blanks(chars@, n as int) == drop_blanks(chars@, end as int),
        decreases end,
    {
        if !is_whitespace(chars[end - 1]) {
            return end;
        }
        end -= 1;
    }
    0
}

/// Whether an answer says yes: whether it is `y` or `yes`, in any letter
/// case, with any white space before and after it.
pub fn is_affirmative(answer: &str) -> (yes: bool)
    ensures
        yes == affirmative(answer@),
{
    let chars = chars_of(answer);
    let start = start_of_word(&chars);
    let end = end_of_word(&chars);
    if start >= end {
        return false;
    }
    let first = chars[start];
    if end - start == 1 {
        first == 'y' || first == 'Y'
    } else if end - start == 3 {
        let second = chars[start + 1];
        let third = chars[start + 2];
        (first == 'y' || first == 'Y') && (second == 'e' || second == 'E') && (third == 's'
            || third == 'S')
    } else {
        false
    }
}

/// A trimmed text neither starts nor ends with white space, and is no longer
/// than the text.
pub proof fn lemma_trimmed_is_trimmed(text: Seq<char>)
    ensures
        trimmed(text).len() > 0 ==> !is_blank(trimmed(text).first()) && !is_blank(
            trimmed(text).last(),
        ),
        trimmed(text).len() <= text.len(),
{
    lemma_skip_blanks(text, 0);
    lemma_drop_blanks(text, text.len() as int);
}

/// `skip_blanks` stops at the first character that is not white space.
pub proof fn lemma_skip_blanks(text: Seq<char>, from: int)
    requires
        0 <= from <= text.len(),
    ensures
        from <= skip_blanks(text, from) <= text.len(),
        skip_blanks(text, from) < text.len() ==> !is_blank(text[skip_blanks(text, from)]),
        forall|k: int| from <= k < skip_blanks(text, from) ==> is_blank(#[trigger] text[k]),
    decreases text.len() - from,
{
    if from < text.len() && is_blank(text[from]) {
        lemma_skip_blanks(text, from + 1);
    }
}

/// `drop_blanks` stops after the last character that is not white space.
pub proof fn lemma_drop_blanks(text: Seq<char>, upto: int)
    requires
        0 <= upto <= text.len(),
    ensures
        0 <= drop_blanks(text, upto) <= upto,
        drop_blanks(text, upto) > 0 ==> !is_blank(text[drop_blanks(text, upto) - 1]),
        forall|k: int| drop_blanks(text, upto) <= k < upto ==> is_blank(#[trigger] text[k]),
    decreases upto,
{
    if upto > 0 && is_blank(text[upto - 1]) {
        lemma_drop_blanks(text, upto - 1);
    }
}

} // verus!
