//! Scanning helpers of the Brave parser: bracket matching over characters
//! and the search for a JSON array before a position.
use vstd::prelude::*;
use crate::offsets::{byte_at, byte_len, char_at_byte, lemma_byte_at_grows, Utf8Text};

verus! {

/// Scanning `s` from position `i`, with `depth` unmatched `open` characters
/// seen, inside a string literal or not, and with the next character escaped
/// or not: the position of the `close` character that brings the depth back
/// to zero. Backslashes escape the next character everywhere, a double quote
/// toggles string mode, and brackets inside strings are not counted.
pub open spec fn balanced_end(s: Seq<char>, i: int, open: char, close: char, depth: int, in_str: bool, esc: bool) -> Option<int>
    decreases s.len() - i,
{
    if i < 0 || i >= s.len() {
        None
    } else if esc {
        balanced_end(s, i + 1, open, close, depth, in_str, false)
    } else if s[i] == '\\' {
        balanced_end(s, i + 1, open, close, depth, in_str, true)
    } else if s[i] == '"' {
        balanced_end(s, i + 1, open, close, depth, !in_str, false)
    } else if s[i] == open && !in_str {
        balanced_end(s, i + 1, open, close, depth + 1, in_str, false)
    } else if s[i] == close && !in_str {
        if depth - 1 == 0 {
            Some(i)
        } else {
            balanced_end(s, i + 1, open, close, depth - 1, in_str, false)
        }
    } else {
        balanced_end(s, i + 1, open, close, depth, in_str, false)
    }
}

pub proof fn lemma_balanced_end_range(s: Seq<char>, i: int, open: char, close: char, depth: int, in_str: bool, esc: bool)
    requires
        0 <= i,
    ensures
        balanced_end(s, i, open, close, depth, in_str, esc) matches Some(e) ==> i <= e < s.len(),
    decreases s.len() - i,
{
    if i < s.len() {
        if esc {
            lemma_balanced_end_range(s, i + 1, open, close, depth, in_str, false);
        } else if s[i] == '\\' {
            lemma_balanced_end_range(s, i + 1, open, close, depth, in_str, true);
        } else if s[i] == '"' {
            lemma_balanced_end_range(s, i + 1, open, close, depth, !in_str, false);
        } else if s[i] == open && !in_str {
            lemma_balanced_end_range(s, i + 1, open, close, depth + 1, in_str, false);
        } else if s[i] == close && !in_str {
            lemma_balanced_end_range(s, i + 1, open, close, depth - 1, in_str, false);
        } else {
            lemma_balanced_end_range(s, i + 1, open, close, depth, in_str, false);
        }
    }
}

/// The matching end of a bracketed region that starts at `i`.
pub fn balanced_end_from(s: &[char], i: usize, open: char, close: char) -> (r: Option<usize>)
    ensures
        match r {
            Some(e) => balanced_end(s@, i as int, open, close, 0, false, false) == Some(e as int),
            None => balanced_end(s@, i as int, open, close, 0, false, false) is None,
        },
{
    let mut k = i;
    let mut depth: i128 = 0;
    let mut in_str = false;
    let mut esc = false;
    while k < s.len()
        invariant
            i <= k,
            -(k as int - i as int) <= depth <= k as int - i as int,
            k as int - i as int <= usize::MAX,
            balanced_end(s@, i as int, open, close, 0, false, false) == balanced_end(s@, k as int, open, close, depth as int, in_str, esc),
        decreases s.len() - k,
    {
        let c = s[k];
        if esc {
            esc = false;
        } else if c == '\\' {
            esc = true;
        } else if c == '"' {
            in_str = !in_str;
        } else if c == open && !in_str {
            depth = depth + 1;
        } else if c == close && !in_str {
            if depth - 1 == 0 {
                return Some(k);
            }
            depth = depth - 1;
        }
        k = k + 1;
    }
    None
}

/// The largest position in `[lo, hi)` that holds a `[` (positions past the
/// end of `s` hold nothing).
pub open spec fn last_bracket_below(s: Seq<char>, lo: int, hi: int) -> Option<int>
    decreases hi - lo,
{
    if hi <= lo {
        None
    } else if 0 <= hi - 1 < s.len() && s[hi - 1] == '[' {
        Some(hi - 1)
    } else {
        last_bracket_below(s, lo, hi - 1)
    }
}

pub proof fn lemma_last_bracket_range(s: Seq<char>, lo: int, hi: int)
    ensures
        last_bracket_below(s, lo, hi) matches Some(i) ==> lo <= i < hi && 0 <= i < s.len() && s[i] == '[',
    decreases hi - lo,
{
    if hi > lo {
        lemma_last_bracket_range(s, lo, hi - 1);
    }
}

pub fn last_bracket(s: &[char], lo: usize, hi: usize) -> (r: Option<usize>)
    ensures
        match r {
            Some(i) => last_bracket_below(s@, lo as int, hi as int) == Some(i as int),
            None => last_bracket_below(s@, lo as int, hi as int) is None,
        },
{
    let mut h = hi;
    while h > lo
        invariant
            h <= hi,
            last_bracket_below(s@, lo as int, hi as int) == last_bracket_below(s@, lo as int, h as int),
        decreases h,
    {
        if h - 1 < s.len() && s[h - 1] == '[' {
            return Some(h - 1);
        }
        h = h - 1;
    }
    None
}

/// Copy of the characters between two byte offsets that are both character
/// boundaries.
pub fn slice_bytes(t: &Utf8Text, a: usize, b: usize) -> (r: Vec<char>)
    requires
        t.wf(),
        char_at_byte(t.chars@, a as int) is Some,
        char_at_byte(t.chars@, b as int) is Some,
        a <= b,
    ensures
        r@ == t.chars@.subrange(char_at_byte(t.chars@, a as int)->0, char_at_byte(t.chars@, b as int)->0),
        char_at_byte(t.chars@, a as int)->0 <= char_at_byte(t.chars@, b as int)->0,
{
    let ca = t.char_at(a).unwrap();
    let cb = t.char_at(b).unwrap();
    proof {
        let sa = char_at_byte(t.chars@, a as int)->0;
        let sb = char_at_byte(t.chars@, b as int)->0;
        if sb < sa {
            lemma_byte_at_grows(t.chars@, sb, sa);
        }
    }
    crate::text::slice_chars(t.chars.as_slice(), ca, cb)
}

} // verus!
