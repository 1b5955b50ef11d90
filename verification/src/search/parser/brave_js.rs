//! Conversion of a JavaScript object literal, as Brave embeds it in its
//! pages, into JSON text: unquoted property names are quoted, `void 0` and
//! `undefined` become `null`.
use vstd::prelude::*;
use crate::offsets::{byte_len, char_at_byte, Utf8Text};
use crate::search::parser::brave_scan::slice_bytes;
use crate::text::{chars_of, push_all, replaced, str_replace, string_of};

verus! {

/// Byte offsets reported for one match of the property-name pattern: the
/// whole match and, if it took part, the property-name group.
pub struct KeyCapture {
    pub whole: (usize, usize),
    pub key: Option<(usize, usize)>,
}

/// The name of what `Regex::captures_iter` yields for the property-name
/// pattern `(?:^|[,{\s])([a-zA-Z_][a-zA-Z0-9_]*)\s*:` on a text: the byte
/// offsets of each successive match and of its first group.
pub uninterp spec fn js_key_captures(text: Seq<char>) -> Seq<KeyCapture>;

/// What the `regex` documentation promises of the reported offsets: each
/// match starts no later than it ends, successive matches do not overlap, and
/// every offset falls on a character boundary of the text.
pub open spec fn captures_well_placed(text: Seq<char>, caps: Seq<KeyCapture>) -> bool {
    &&& forall|k: int| 0 <= k < caps.len() ==> {
        &&& #[trigger] caps[k].whole.0 <= caps[k].whole.1
        &&& char_at_byte(text, caps[k].whole.0 as int) is Some
        &&& char_at_byte(text, caps[k].whole.1 as int) is Some
        &&& (caps[k].key matches Some(g) ==> g.0 <= g.1 && char_at_byte(text, g.0 as int) is Some
            && char_at_byte(text, g.1 as int) is Some)
    }
    &&& forall|k: int| 0 <= k < caps.len() - 1 ==> #[trigger] caps[k].whole.1 <= caps[k + 1].whole.0
}

/// Runs `Regex::captures_iter` with the property-name pattern; claimed: the
/// captures are `js_key_captures`, placed as the `regex` documentation says.
#[verifier::external_body]
fn property_captures(text: &str) -> (r: Vec<KeyCapture>)
    ensures
        r@ == js_key_captures(text@),
        captures_well_placed(text@, r@),
{
    let re = regex::Regex::new(r"(?:^|[,{\s])([a-zA-Z_][a-zA-Z0-9_]*)\s*:").unwrap();
    re.captures_iter(text).map(|c| {
        let m = c.get(0).unwrap();
        KeyCapture { whole: (m.start(), m.end()), key: c.get(1).map(|g| (g.start(), g.end())) }
    }).collect()
}

/// Runs `Regex::replace_all` with the boolean-value pattern
/// `:(\s*)(true|false)(\s*[,}\]])` and the replacement `:$1$2$3`; claimed:
/// the text comes back unchanged, since each match is `:` followed by its
/// three groups, all of which always take part, and the replacement puts
/// exactly these back.
#[verifier::external_body]
fn rewrite_boolean_values(text: &str) -> (r: String)
    ensures
        r@ == text@,
{
    regex::Regex::new(r":(\s*)(true|false)(\s*[,}\]])").unwrap().replace_all(text, ":$1$2$3").to_string()
}

/// The characters between two byte offsets of `s`.
pub open spec fn between(s: Seq<char>, a: int, b: int) -> Seq<char> {
    s.subrange(char_at_byte(s, a)->0, char_at_byte(s, b)->0)
}

/// The text that replaces one match, together with the text between the
/// previous match (ending at byte `last`) and this one; `None` where the
/// prefix computation underflows or slices inside a character (the
/// conversion panics there).
pub open spec fn piece_of(s: Seq<char>, m: KeyCapture, last: int) -> Option<Seq<char>> {
    match m.key {
        None => None,
        Some(g) => {
            let full_len = m.whole.1 - m.whole.0;
            let prop_len = g.1 - g.0;
            if full_len < prop_len + 1 {
                None
            } else {
                let pre_end = m.whole.0 + (full_len - prop_len - 1);
                if char_at_byte(s, pre_end) is None {
                    None
                } else {
                    Some(between(s, last, m.whole.0 as int) + between(s, m.whole.0 as int, pre_end) + "\""@
                        + between(s, g.0 as int, g.1 as int) + "\":"@)
                }
            }
        },
    }
}

/// The text that the property-quoting replacement produces from match `k` on,
/// the previous match having ended at byte `last`; `None` where it panics.
pub open spec fn quoted_from(s: Seq<char>, caps: Seq<KeyCapture>, k: int, last: int) -> Option<Seq<char>>
    decreases caps.len() - k,
{
    if k < 0 || k >= caps.len() {
        Some(between(s, last, byte_len(s) as int))
    } else {
        match piece_of(s, caps[k], last) {
            None => None,
            Some(p) => match quoted_from(s, caps, k + 1, caps[k].whole.1 as int) {
                None => None,
                Some(rest) => Some(p + rest),
            },
        }
    }
}

/// The JSON text made from a JavaScript object literal, or `None` where the
/// conversion panics.
pub open spec fn fixed_js(s: Seq<char>) -> Option<Seq<char>> {
    match quoted_from(s, js_key_captures(s), 0, 0) {
        None => None,
        Some(q) => Some(replaced(replaced(q, ":void 0"@, ":null"@), ":undefined"@, ":null"@)),
    }
}

/// The replacement text of one match, with the text before it.
fn capture_piece(t: &Utf8Text, m: &KeyCapture, last: usize) -> (r: Option<Vec<char>>)
    requires
        t.wf(),
        char_at_byte(t.chars@, last as int) is Some,
        char_at_byte(t.chars@, m.whole.0 as int) is Some,
        last <= m.whole.0 <= m.whole.1,
        m.key matches Some(g) ==> g.0 <= g.1 && char_at_byte(t.chars@, g.0 as int) is Some
            && char_at_byte(t.chars@, g.1 as int) is Some,
    ensures
        match r {
            Some(v) => piece_of(t.chars@, *m, last as int) == Some(v@),
            None => piece_of(t.chars@, *m, last as int) is None,
        },
{
    let g = match m.key {
        None => {
            return None;
        },
        Some(g) => g,
    };
    let full_len = m.whole.1 - m.whole.0;
    let prop_len = g.1 - g.0;
    if full_len < prop_len || full_len - prop_len < 1 {
        return None;
    }
    let pre_end = m.whole.0 + (full_len - prop_len - 1);
    if t.char_at(pre_end).is_none() {
        return None;
    }
    let mut out = slice_bytes(t, last, m.whole.0);
    let prefix = slice_bytes(t, m.whole.0, pre_end);
    push_all(&mut out, prefix.as_slice());
    let q1 = chars_of("\"");
    push_all(&mut out, q1.as_slice());
    let prop = slice_bytes(t, g.0, g.1);
    push_all(&mut out, prop.as_slice());
    let q2 = chars_of("\":");
    push_all(&mut out, q2.as_slice());
    Some(out)
}

/// `rest` with `prefix` in front, where there is a `rest`.
pub open spec fn prefixed(prefix: Seq<char>, rest: Option<Seq<char>>) -> Option<Seq<char>> {
    match rest {
        None => None,
        Some(r) => Some(prefix + r),
    }
}

/// One step of `quoted_from`: a match whose piece exists contributes it in
/// front of what the following matches give.
proof fn lemma_quoted_step(s: Seq<char>, cs: Seq<KeyCapture>, k: int, last: int, piece: Seq<char>, out: Seq<char>)
    requires
        0 <= k < cs.len(),
        piece_of(s, cs[k], last) == Some(piece),
    ensures
        prefixed(out, quoted_from(s, cs, k, last)) == prefixed(out + piece, quoted_from(s, cs, k + 1, cs[k].whole.1 as int)),
{
    match quoted_from(s, cs, k + 1, cs[k].whole.1 as int) {
        None => {},
        Some(rest) => {
            assert(out + (piece + rest) =~= (out + piece) + rest);
        },
    }
}

/// Quotes the property names of `js` (the first step of the conversion).
fn quote_properties(js: &str) -> (r: Option<Vec<char>>)
    ensures
        match r {
            Some(v) => quoted_from(js@, js_key_captures(js@), 0, 0) == Some(v@),
            None => quoted_from(js@, js_key_captures(js@), 0, 0) is None,
        },
{
    let t = Utf8Text::of(js);
    let caps = property_captures(js);
    let ghost s = js@;
    let ghost cs = caps@;
    let mut out: Vec<char> = Vec::new();
    let mut k: usize = 0;
    let mut last: usize = 0;
    proof {
        crate::offsets::lemma_char_at_byte(s, 0);
        assert(Seq::<char>::empty() + quoted_from(s, cs, 0, 0)->0 =~= quoted_from(s, cs, 0, 0)->0);
    }
    while k < caps.len()
        invariant
            t.wf(),
            t.chars@ == s,
            s == js@,
            cs == caps@,
            cs == js_key_captures(s),
            captures_well_placed(s, cs),
            k <= cs.len(),
            char_at_byte(s, last as int) is Some,
            k < cs.len() ==> last <= cs[k as int].whole.0,
            quoted_from(s, cs, 0, 0) == prefixed(out@, quoted_from(s, cs, k as int, last as int)),
        decreases cs.len() - k,
    {
        let m = &caps[k];
        assert(cs[k as int] == *m);
        let piece = match capture_piece(&t, m, last) {
            None => {
                return None;
            },
            Some(p) => p,
        };
        proof {
            lemma_quoted_step(s, cs, k as int, last as int, piece@, out@);
            if k + 1 < cs.len() {
                assert(cs[k as int].whole.1 <= cs[k + 1].whole.0);
            }
        }
        push_all(&mut out, piece.as_slice());
        last = m.whole.1;
        k = k + 1;
    }
    let tail = slice_bytes_to_end(&t, last);
    assert(quoted_from(s, cs, k as int, last as int) == Some(tail@));
    push_all(&mut out, tail.as_slice());
    Some(out)
}

/// The characters from byte offset `a` to the end.
fn slice_bytes_to_end(t: &Utf8Text, a: usize) -> (r: Vec<char>)
    requires
        t.wf(),
        char_at_byte(t.chars@, a as int) is Some,
    ensures
        r@ == between(t.chars@, a as int, byte_len(t.chars@) as int),
{
    let n = t.chars.len();
    let end = t.offsets[n];
    proof {
        assert(t.chars@.subrange(0, n as int) =~= t.chars@);
        crate::offsets::lemma_char_at_byte(t.chars@, n as int);
        let ca = char_at_byte(t.chars@, a as int)->0;
        assert(crate::offsets::byte_at(t.chars@, ca) == a);
        if ca > n {
        }
        crate::offsets::lemma_byte_at_grows(t.chars@, ca, n as int);
    }
    slice_bytes(t, a, end)
}

/// Converts a JavaScript object literal into JSON text; `None` on the inputs
/// where the conversion panics.
pub fn fix_js_object(js: &str) -> (r: Option<String>)
    ensures
        match r {
            Some(v) => fixed_js(js@) == Some(v@),
            None => fixed_js(js@) is None,
        },
{
    let q = match quote_properties(js) {
        None => {
            return None;
        },
        Some(q) => q,
    };
    let qs = string_of(q.as_slice());
    proof {
        reveal_strlit(":void 0");
        reveal_strlit(":undefined");
    }
    let a = str_replace(qs.as_str(), ":void 0", ":null");
    let b = str_replace(a.as_str(), ":undefined", ":null");
    Some(rewrite_boolean_values(b.as_str()))
}

} // verus!
