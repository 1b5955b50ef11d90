//! Byte offsets of characters in UTF-8 text. `str` methods such as `find`
//! and range slicing count in bytes; these helpers relate byte positions to
//! character positions so that byte-based text handling can be stated over
//! characters.
use vstd::prelude::*;
use vstd::utf8::encode_utf8;
use crate::text::chars_of;

verus! {

/// Number of bytes of a character's UTF-8 encoding (`char::len_utf8`).
pub open spec fn utf8_width(c: char) -> nat {
    let u = c as u32;
    if u < 0x80 {
        1
    } else if u < 0x800 {
        2
    } else if u < 0x10000 {
        3
    } else {
        4
    }
}

/// Number of bytes of the UTF-8 encoding of `s`.
pub open spec fn byte_len(s: Seq<char>) -> nat
    decreases s.len(),
{
    if s.len() == 0 {
        0
    } else {
        byte_len(s.drop_last()) + utf8_width(s.last())
    }
}

/// Byte offset of character `k` of `s`.
pub open spec fn byte_at(s: Seq<char>, k: int) -> nat {
    byte_len(s.subrange(0, k))
}

pub proof fn lemma_byte_len_concat(a: Seq<char>, b: Seq<char>)
    ensures
        byte_len(a + b) == byte_len(a) + byte_len(b),
    decreases b.len(),
{
    if b.len() == 0 {
        assert(a + b =~= a);
    } else {
        assert((a + b).drop_last() =~= a + b.drop_last());
        lemma_byte_len_concat(a, b.drop_last());
    }
}

proof fn lemma_width_matches(c: char)
    ensures
        vstd::utf8::encode_scalar(c as u32).len() == utf8_width(c),
{
}

pub proof fn lemma_encode_len(s: Seq<char>)
    ensures
        encode_utf8(s).len() == byte_len(s),
    decreases s.len(),
{
    if s.len() > 0 {
        lemma_encode_len(s.drop_first());
        lemma_width_matches(s[0]);
        lemma_byte_len_concat(seq![s[0]], s.drop_first());
        assert(seq![s[0]] + s.drop_first() =~= s);
        assert(seq![s[0]].drop_last() =~= Seq::<char>::empty());
        assert(byte_len(Seq::<char>::empty()) == 0);
        assert(byte_len(seq![s[0]]) == utf8_width(s[0]));
        assert(encode_utf8(s) == vstd::utf8::encode_scalar(s[0] as u32) + encode_utf8(s.drop_first()));
    }
}

/// Offsets grow by at least one per character.
pub proof fn lemma_byte_at_grows(s: Seq<char>, j: int, k: int)
    requires
        0 <= j <= k <= s.len(),
    ensures
        byte_at(s, j) + (k - j) <= byte_at(s, k),
    decreases k - j,
{
    if j < k {
        lemma_byte_at_grows(s, j, k - 1);
        assert(s.subrange(0, k).drop_last() =~= s.subrange(0, k - 1));
    }
}

/// The character position at byte offset `b`, when `b` is a character
/// boundary.
pub open spec fn char_at_byte(s: Seq<char>, b: int) -> Option<int> {
    if exists|k: int| 0 <= k <= s.len() && byte_at(s, k) == b {
        Some(choose|k: int| 0 <= k <= s.len() && byte_at(s, k) == b)
    } else {
        None
    }
}

pub proof fn lemma_char_at_byte(s: Seq<char>, k: int)
    requires
        0 <= k <= s.len(),
    ensures
        char_at_byte(s, byte_at(s, k) as int) == Some(k),
{
    let b = byte_at(s, k) as int;
    assert(exists|j: int| 0 <= j <= s.len() && byte_at(s, j) == b);
    let j = choose|j: int| 0 <= j <= s.len() && byte_at(s, j) == b;
    if j < k {
        lemma_byte_at_grows(s, j, k);
    } else if k < j {
        lemma_byte_at_grows(s, k, j);
    }
}

/// The characters of a text together with the byte offset of each
/// character position (including the end).
pub struct Utf8Text {
    pub chars: Vec<char>,
    pub offsets: Vec<usize>,
}

impl Utf8Text {
    pub open spec fn wf(&self) -> bool {
        &&& self.offsets@.len() == self.chars@.len() + 1
        &&& forall|k: int| 0 <= k <= self.chars@.len() ==> #[trigger] self.offsets@[k] == byte_at(self.chars@, k)
    }

    pub fn of(s: &str) -> (r: Utf8Text)
        ensures
            r.wf(),
            r.chars@ == s@,
    {
        let bytes = s.as_bytes();
        let total = bytes.len();
        proof {
            lemma_encode_len(s@);
        }
        let chars = chars_of(s);
        let mut offsets: Vec<usize> = Vec::new();
        offsets.push(0);
        assert(s@.subrange(0, 0) =~= Seq::<char>::empty());
        let mut k: usize = 0;
        let mut acc: usize = 0;
        while k < chars.len()
            invariant
                chars@ == s@,
                total == byte_len(s@),
                k <= chars@.len(),
                offsets@.len() == k + 1,
                acc == byte_at(chars@, k as int),
                forall|j: int| 0 <= j <= k ==> #[trigger] offsets@[j] == byte_at(chars@, j),
            decreases chars.len() - k,
        {
            let c = chars[k];
            let u = c as u32;
            let w: usize = if u < 0x80 {
                1
            } else if u < 0x800 {
                2
            } else if u < 0x10000 {
                3
            } else {
                4
            };
            proof {
                assert(chars@.subrange(0, k + 1).drop_last() =~= chars@.subrange(0, k as int));
                assert(byte_at(chars@, k + 1) == acc + w);
                lemma_byte_at_grows(chars@, k + 1, chars@.len() as int);
                assert(chars@.subrange(0, chars@.len() as int) =~= chars@);
            }
            acc = acc + w;
            offsets.push(acc);
            k = k + 1;
        }
        Utf8Text { chars, offsets }
    }

    /// The character position at byte offset `b`, or `None` when `b` is not
    /// a character boundary.
    pub fn char_at(&self, b: usize) -> (r: Option<usize>)
        requires
            self.wf(),
        ensures
            match r {
                Some(k) => char_at_byte(self.chars@, b as int) == Some(k as int) && k <= self.chars@.len(),
                None => char_at_byte(self.chars@, b as int) is None,
            },
    {
        let n = self.chars.len();
        let mut lo: usize = 0;
        let mut hi: usize = n;
        assert(self.chars@.subrange(0, 0) =~= Seq::<char>::empty());
        while lo < hi
            invariant
                self.wf(),
                n == self.chars@.len(),
                lo <= hi <= n,
                self.offsets@[lo as int] <= b,
                forall|k: int| hi < k <= n ==> #[trigger] self.offsets@[k] > b,
            decreases hi - lo,
        {
            let mid = lo + (hi - lo) / 2 + 1;
            if self.offsets[mid] <= b {
                lo = mid;
            } else {
                proof {
                    assert forall|k: int| mid - 1 < k <= n implies #[trigger] self.offsets@[k] > b by {
                        if k > mid {
                            lemma_byte_at_grows(self.chars@, mid as int, k);
                        }
                    }
                }
                hi = mid - 1;
            }
        }
        if self.offsets[lo] == b {
            proof {
                lemma_char_at_byte(self.chars@, lo as int);
            }
            Some(lo)
        } else {
            proof {
                assert forall|k: int| 0 <= k <= n implies byte_at(self.chars@, k) != b by {
                    if k < lo {
                        lemma_byte_at_grows(self.chars@, k, lo as int);
                    } else if k > lo {
                        assert(self.offsets@[k] > b);
                    }
                }
            }
            None
        }
    }
}

} // verus!
