//! Parser for Brave Search pages: results embedded as JSON first, the HTML
//! structure as a fallback.
use vstd::prelude::*;
use crate::search::parser::parse_outcome;
use crate::error::TarziError;
use crate::html::{attr_of, document_find, find_all, find_in, first_in, first_node, node_attr, node_find, node_text, trimmed_text, HtmlPage, Selector};
use crate::json::{array_member, json_array, json_document, json_get, json_str, parse_json, str_member, JsonValue};
use crate::offsets::{byte_at, byte_len, char_at_byte, lemma_byte_at_grows, lemma_char_at_byte, Utf8Text};
use crate::search::parser::base::{
    absolute_url, absolute_url_of, entries, entry_of, found_text, found_text_from, gather,
    gather_hits, probe_views, BaseParser, BaseParserImpl, Candidate, Entry, Probe,
};
use crate::search::parser::brave_js::{fix_js_object, fixed_js};
use crate::search::parser::brave_scan::{
    balanced_end, balanced_end_from, last_bracket, last_bracket_below, lemma_balanced_end_range,
    lemma_last_bracket_range, slice_bytes,
};
use crate::search::types::{hits, Hit, SearchEngineType, SearchResult};
use crate::text::{chars_of, lemma_next_occurrence_range, next_match, next_occurrence, replaced, slice_chars, str_replace, str_to_string, string_of, trim};

verus! {

pub struct BraveParser {
    base: BaseParserImpl,
}

impl View for BraveParser {
    type V = (Seq<char>, SearchEngineType);

    closed spec fn view(&self) -> (Seq<char>, SearchEngineType) {
        self.base@
    }
}

// ---------------------------------------------------------------------------
// Results from a JSON object

/// A result object needs `title` and `url` members to count as a result.
pub open spec fn has_title_url(v: JsonValue) -> bool {
    json_get(v, "title"@) is Some && json_get(v, "url"@) is Some
}

/// The elements of `s` that have `title` and `url` members, in order.
pub open spec fn keep_titled(s: Seq<JsonValue>) -> Seq<JsonValue>
    decreases s.len(),
{
    if s.len() == 0 {
        Seq::empty()
    } else if has_title_url(s.last()) {
        keep_titled(s.drop_last()).push(s.last())
    } else {
        keep_titled(s.drop_last())
    }
}

/// The snippet text with the HTML escapes Brave leaves in it undone.
pub open spec fn clean_snippet(s: Seq<char>) -> Seq<char> {
    let a = replaced(s, "\\u003Cstrong\\u003E"@, ""@);
    let b = replaced(a, "\\u003C/strong\\u003E"@, ""@);
    let c = replaced(b, "\\u003C"@, "<"@);
    let d = replaced(c, "\\u003E"@, ">"@);
    let e = replaced(d, "&quot;"@, "\""@);
    let f = replaced(e, "&#x27;"@, "'"@);
    replaced(f, "&amp;"@, "&"@)
}

/// The `description` member of a result, or else its `snippet` member, as
/// text (empty when it is missing or not a string).
pub open spec fn json_description(v: JsonValue) -> Seq<char> {
    let d = match json_get(v, "description"@) {
        Some(x) => json_str(x),
        None => match json_get(v, "snippet"@) {
            Some(x) => json_str(x),
            None => None,
        },
    };
    match d {
        Some(x) => x,
        None => Seq::empty(),
    }
}

/// What one JSON result yields: its string `title` and `url` (both
/// non-empty) and its cleaned description.
pub open spec fn json_entry(v: JsonValue) -> Option<Entry> {
    match (str_member(v, "title"@), str_member(v, "url"@)) {
        (Some(t), Some(u)) => if t.len() > 0 && u.len() > 0 {
            Some(Entry { title: t, url: u, snippet: clean_snippet(json_description(v)) })
        } else {
            None
        },
        _ => None,
    }
}

/// Results from the first `limit` JSON values, each ranked by its position
/// among them (from 1), skipping values that are not results.
pub open spec fn json_hits_from(rs: Seq<JsonValue>, i: int, limit: nat, acc: Seq<Hit>) -> Seq<Hit>
    decreases rs.len() - i,
{
    if i < 0 || i >= rs.len() || i >= limit {
        acc
    } else {
        match json_entry(rs[i]) {
            Some(e) => json_hits_from(rs, i + 1, limit, acc.push(Hit { title: e.title, url: e.url, snippet: e.snippet, rank: (i + 1) as nat })),
            None => json_hits_from(rs, i + 1, limit, acc),
        }
    }
}

// ---------------------------------------------------------------------------
// Finding JSON embedded in the page

/// Outcome of the search for embedded results: results, nothing, or a panic
/// (the search slices the page at byte offsets that may fall inside a
/// character).
pub enum Scan {
    Found(Seq<JsonValue>),
    Missing,
    Panics,
}

pub open spec fn script_open_tag() -> Seq<char> {
    "<script id=\"tarzi-brave-results\" type=\"application/json\">"@
}

/// Results from the explicitly injected `<script id="tarzi-brave-results">`
/// element: its JSON payload's `results` array, keeping elements with a
/// `title` and a `url`, when that leaves any.
pub open spec fn script_results(h: Seq<char>) -> Option<Seq<JsonValue>> {
    match next_occurrence(h, script_open_tag(), 0) {
        None => None,
        Some(st) => match next_occurrence(h, "</script>"@, st) {
            None => None,
            Some(cl) => {
                let seg = h.subrange(st, cl);
                match next_occurrence(seg, ">"@, 0) {
                    None => None,
                    Some(j) => match json_document(seg.subrange(j + 1, seg.len() as int)) {
                        None => None,
                        Some(v) => match array_member(v, "results"@) {
                            None => None,
                            Some(arr) => if keep_titled(arr).len() > 0 {
                                Some(keep_titled(arr))
                            } else {
                                None
                            },
                        },
                    },
                }
            },
        },
    }
}

/// A result from the first JavaScript object literal starting `{title:`.
pub open spec fn object_results(h: Seq<char>) -> Scan {
    match next_occurrence(h, "{title:"@, 0) {
        None => Scan::Missing,
        Some(c) => {
            let sb = byte_at(h, c);
            match balanced_end(h, c, '{', '}', 0, false, false) {
                None => Scan::Missing,
                Some(e) => match char_at_byte(h, sb + (e - c) + 1) {
                    None => Scan::Panics,
                    Some(ce) => match fixed_js(h.subrange(c, ce)) {
                        None => Scan::Panics,
                        Some(fx) => match json_document(fx) {
                            Some(v) => if has_title_url(v) {
                                Scan::Found(seq![v])
                            } else {
                                Scan::Missing
                            },
                            None => Scan::Missing,
                        },
                    },
                },
            }
        },
    }
}

/// Results from a JSON array around an occurrence of `"title":` at or after
/// position `cur`: the array start is looked for among the 1000 positions
/// before the occurrence's byte offset, counted as characters; its end is
/// found by bracket matching from just after the `[`.
pub open spec fn array_results_from(h: Seq<char>, cur: int) -> Scan
    decreases h.len() + 1 - cur,
{
    if cur < 0 || cur > h.len() {
        Scan::Missing
    } else {
        match next_occurrence(h, "\"title\":"@, cur) {
            None => Scan::Missing,
            Some(p) => if p < cur || p > h.len() {
                Scan::Missing
            } else {
                let pb = byte_at(h, p) as int;
                let lo = if pb >= 1000 { pb - 1000 } else { 0 };
                match last_bracket_below(h, lo, pb) {
                    None => array_results_from(h, p + 1),
                    Some(i) => match char_at_byte(h, i + 1) {
                        None => Scan::Panics,
                        Some(c1) => match balanced_end(h, c1, '[', ']', 0, false, false) {
                            None => array_results_from(h, p + 1),
                            Some(e) => match char_at_byte(h, (i + 1) + (e - c1)) {
                                None => Scan::Panics,
                                Some(ce) => match json_document(h.subrange(c1, ce)) {
                                    Some(JsonValue::Array(a)) => if keep_titled(a@).len() > 0 {
                                        Scan::Found(keep_titled(a@))
                                    } else {
                                        array_results_from(h, p + 1)
                                    },
                                    _ => array_results_from(h, p + 1),
                                },
                            },
                        },
                    },
                }
            },
        }
    }
}

/// The results embedded in a Brave page, trying the injected script element,
/// then a `{title:` object literal, then arrays around `"title":`.
pub open spec fn embedded_results(h: Seq<char>) -> Scan {
    match script_results(h) {
        Some(r) => Scan::Found(r),
        None => match object_results(h) {
            Scan::Missing => array_results_from(h, 0),
            other => other,
        },
    }
}

// ---------------------------------------------------------------------------
// The HTML fallback

/// The snippet selectors tried on a result element.
pub open spec fn brave_snippet_probes() -> Seq<(Selector, Seq<char>, Seq<char>)> {
    seq![
        (Selector::Name, "p"@, Seq::empty()),
        (Selector::Class, "result-snippet"@, Seq::empty()),
        (Selector::Class, "snippet"@, Seq::empty()),
        (Selector::Class, "description"@, Seq::empty()),
        (Selector::Class, "desc"@, Seq::empty()),
        (Selector::Class, "content"@, Seq::empty()),
    ]
}

/// The result element selectors, tried in order until one gives results.
pub open spec fn brave_containers() -> Seq<(Selector, Seq<char>)> {
    seq![
        (Selector::Name, "article"@),
        (Selector::Class, "result"@),
        (Selector::Class, "web-result"@),
        (Selector::Class, "snippet-content"@),
        (Selector::Class, "fdb-result"@),
        (Selector::Class, "result-row"@),
    ]
}

pub open spec fn brave_url(href: Seq<char>) -> Seq<char> {
    absolute_url(href, "https://search.brave.com"@)
}

/// The first `h3`, else `h2`, else `h1` below a node.
pub open spec fn heading_of(html: Seq<char>, node: usize) -> Option<usize> {
    match first_node(node_find(html, node, Selector::Name, "h3"@, Seq::empty())) {
        Some(n) => Some(n),
        None => match first_node(node_find(html, node, Selector::Name, "h2"@, Seq::empty())) {
            Some(n) => Some(n),
            None => first_node(node_find(html, node, Selector::Name, "h1"@, Seq::empty())),
        },
    }
}

/// Title and link from the heading: its first link's text and target, or the
/// heading's own text with no link.
pub open spec fn heading_title_url(html: Seq<char>, node: usize) -> (Seq<char>, Seq<char>) {
    match heading_of(html, node) {
        None => (Seq::empty(), Seq::empty()),
        Some(hd) => match first_node(node_find(html, hd, Selector::Name, "a"@, Seq::empty())) {
            Some(l) => (trim(node_text(html, l)), match node_attr(html, l, "href"@) {
                Some(h) => brave_url(h),
                None => Seq::empty(),
            }),
            None => (trim(node_text(html, hd)), Seq::empty()),
        },
    }
}

/// Title and link of a result element: from the heading, or, when that
/// gives no title, from the element's first link (whose target replaces the
/// earlier one only when it has one).
pub open spec fn brave_title_url(html: Seq<char>, node: usize) -> (Seq<char>, Seq<char>) {
    let (t, u) = heading_title_url(html, node);
    if t.len() > 0 {
        (t, u)
    } else {
        match first_node(node_find(html, node, Selector::Name, "a"@, Seq::empty())) {
            Some(l) => (trim(node_text(html, l)), match node_attr(html, l, "href"@) {
                Some(h) => brave_url(h),
                None => u,
            }),
            None => (t, u),
        }
    }
}

/// What one result element yields, when it has both a title and a link.
pub open spec fn brave_candidate(html: Seq<char>, node: usize) -> Option<Entry> {
    let (t, u) = brave_title_url(html, node);
    if t.len() > 0 && u.len() > 0 {
        Some(Entry { title: t, url: u, snippet: found_text_from(html, node, brave_snippet_probes(), 0) })
    } else {
        None
    }
}

/// The candidates of the elements a selector finds.
pub open spec fn brave_pass_of(html: Seq<char>, sel: Selector, a: Seq<char>) -> Seq<Option<Entry>> {
    document_find(html, sel, a, Seq::empty()).map_values(|n: usize| brave_candidate(html, n))
}

pub open spec fn brave_pass(html: Seq<char>, k: int) -> Seq<Option<Entry>> {
    brave_pass_of(html, brave_containers()[k].0, brave_containers()[k].1)
}

/// The results of the first container selector (from the `k`-th on) whose
/// elements give any.
pub open spec fn brave_fallback_from(html: Seq<char>, k: int, limit: nat) -> Seq<Hit>
    decreases 6 - k,
{
    if k < 0 || k >= 6 {
        Seq::empty()
    } else if gather(brave_pass(html, k), limit, false).len() > 0 {
        gather(brave_pass(html, k), limit, false)
    } else {
        brave_fallback_from(html, k + 1, limit)
    }
}

/// The results of a Brave page: those of the embedded JSON when there are
/// any, else those of the HTML structure.
pub open spec fn brave_results(html: Seq<char>, limit: nat) -> Seq<Hit> {
    let from_json = match embedded_results(html) {
        Scan::Found(rs) => json_hits_from(rs, 0, limit, Seq::empty()),
        _ => Seq::empty(),
    };
    if from_json.len() > 0 {
        from_json
    } else {
        brave_fallback_from(html, 0, limit)
    }
}

fn snippet_probes() -> (r: Vec<Probe>)
    ensures
        probe_views(r@) == brave_snippet_probes(),
{
    let r = vec![
        Probe { sel: Selector::Name, a: "p", b: "" },
        Probe { sel: Selector::Class, a: "result-snippet", b: "" },
        Probe { sel: Selector::Class, a: "snippet", b: "" },
        Probe { sel: Selector::Class, a: "description", b: "" },
        Probe { sel: Selector::Class, a: "desc", b: "" },
        Probe { sel: Selector::Class, a: "content", b: "" },
    ];
    assert(probe_views(r@) =~= brave_snippet_probes());
    r
}

/// The elements of `a` that have `title` and `url` members, in order.
fn keep_titled_vec(a: Vec<JsonValue>) -> (r: Vec<JsonValue>)
    ensures
        r@ == keep_titled(a@),
{
    let ghost orig = a@;
    let mut a = a;
    let mut rev: Vec<JsonValue> = Vec::new();
    while a.len() > 0
        invariant
            a@ + rev@.reverse() == orig,
        decreases a.len(),
    {
        let ghost before_a = a@;
        let ghost before_r = rev@;
        let x = a.pop().unwrap();
        rev.push(x);
        assert(rev@.reverse() =~= seq![x] + before_r.reverse());
        assert(a@ + rev@.reverse() =~= before_a.drop_last() + seq![x] + before_r.reverse());
        assert(before_a =~= before_a.drop_last().push(x));
    }
    assert(a@ + rev@.reverse() =~= rev@.reverse());
    let mut out: Vec<JsonValue> = Vec::new();
    let ghost n = orig.len();
    assert(orig.subrange(0, 0) =~= Seq::<JsonValue>::empty());
    while rev.len() > 0
        invariant
            rev@.reverse() == orig.subrange(n - rev@.len(), n as int),
            rev@.len() <= n,
            n == orig.len(),
            out@ == keep_titled(orig.subrange(0, n - rev@.len())),
        decreases rev.len(),
    {
        let ghost k = n - rev@.len();
        let ghost before_r = rev@;
        let x = rev.pop().unwrap();
        assert(before_r.reverse() =~= seq![x] + rev@.reverse());
        assert(rev@.reverse() =~= before_r.reverse().subrange(1, before_r.len() as int));
        assert(before_r.reverse().subrange(1, before_r.len() as int) =~= orig.subrange(k + 1, n as int));
        assert(orig[k] == x) by {
            assert(before_r.reverse()[0] == x);
        }
        assert(orig.subrange(0, k + 1).drop_last() =~= orig.subrange(0, k));
        assert(orig.subrange(0, k + 1).last() == x);
        if has_titles(&x) {
            out.push(x);
        }
        assert(rev@.reverse() =~= orig.subrange(n - rev@.len(), n as int));
    }
    assert(orig.subrange(0, n as int) =~= orig);
    out
}

/// Whether a value has `title` and `url` members.
fn has_titles(v: &JsonValue) -> (r: bool)
    ensures
        r == has_title_url(*v),
{
    v.get("title").is_some() && v.get("url").is_some()
}

impl BraveParser {
    pub fn new() -> (r: BraveParser)
        ensures
            r@ == ("BraveParser"@, SearchEngineType::BraveSearch),
    {
        BraveParser { base: BaseParserImpl::new(str_to_string("BraveParser"), SearchEngineType::BraveSearch) }
    }

    pub fn name(&self) -> (r: &str)
        ensures
            r@ == self@.0,
    {
        self.base.name()
    }

    pub fn engine_type(&self) -> (r: SearchEngineType)
        ensures
            r == self@.1,
    {
        self.base.engine_type()
    }

    pub fn supports(&self, engine_type: &SearchEngineType) -> (r: bool)
        ensures
            r == (self@.1 == *engine_type),
    {
        self.base.supports(engine_type)
    }

    /// Brave's link normalization.
    pub fn normalize_url(&self, href: &str) -> (r: String)
        ensures
            r@ == brave_url(href@),
    {
        absolute_url_of(href, "https://search.brave.com")
    }

    /// The byte offset of the `}` that closes the object starting at byte
    /// `start`, counted as the scan counts it: `start` plus the number of
    /// characters scanned.
    pub fn find_single_object_end(&self, html: &str, start: usize) -> (r: Option<usize>)
        requires
            char_at_byte(html@, start as int) is Some,
        ensures
            match balanced_end(html@, char_at_byte(html@, start as int)->0, '{', '}', 0, false, false) {
                Some(e) => r == Some((start + (e - char_at_byte(html@, start as int)->0)) as usize),
                None => r is None,
            },
    {
        let t = Utf8Text::of(html);
        let c = t.char_at(start).unwrap();
        match balanced_end_from(t.chars.as_slice(), c, '{', '}') {
            Some(e) => {
                proof {
                    assert(crate::offsets::byte_at(html@, c as int) == start);
                    assert(t.offsets@[t.chars@.len() as int] == byte_at(t.chars@, t.chars@.len() as int));
                    lemma_balanced_end_range(html@, c as int, '{', '}', 0, false, false);
                    lemma_byte_at_grows(html@, c as int, e as int);
                    lemma_byte_at_grows(html@, e as int, html@.len() as int);
                    assert(html@.subrange(0, html@.len() as int) =~= html@);
                }
                Some(start + (e - c))
            },
            None => None,
        }
    }

    /// Like `find_single_object_end`, for the `]` closing an array.
    pub fn find_json_end(&self, html: &str, start: usize) -> (r: Option<usize>)
        requires
            char_at_byte(html@, start as int) is Some,
        ensures
            match balanced_end(html@, char_at_byte(html@, start as int)->0, '[', ']', 0, false, false) {
                Some(e) => r == Some((start + (e - char_at_byte(html@, start as int)->0)) as usize),
                None => r is None,
            },
    {
        let t = Utf8Text::of(html);
        let c = t.char_at(start).unwrap();
        match balanced_end_from(t.chars.as_slice(), c, '[', ']') {
            Some(e) => {
                proof {
                    assert(crate::offsets::byte_at(html@, c as int) == start);
                    assert(t.offsets@[t.chars@.len() as int] == byte_at(t.chars@, t.chars@.len() as int));
                    lemma_balanced_end_range(html@, c as int, '[', ']', 0, false, false);
                    lemma_byte_at_grows(html@, c as int, e as int);
                    lemma_byte_at_grows(html@, e as int, html@.len() as int);
                    assert(html@.subrange(0, html@.len() as int) =~= html@);
                }
                Some(start + (e - c))
            },
            None => None,
        }
    }

    /// The last character position below `from_pos` (and at most 1000 below
    /// it) that holds a `[`.
    pub fn find_array_start(&self, html: &str, from_pos: usize) -> (r: Option<usize>)
        ensures
            match last_bracket_below(html@, if from_pos >= 1000 { from_pos - 1000 } else { 0 }, from_pos as int) {
                Some(i) => r == Some(i as usize),
                None => r is None,
            },
    {
        let chars = chars_of(html);
        let lo = if from_pos >= 1000 { from_pos - 1000 } else { 0 };
        last_bracket(chars.as_slice(), lo, from_pos)
    }
}

} // verus!

verus! {

/// The outcome of the search for embedded results, as values.
pub enum EmbeddedScan {
    Found(Vec<JsonValue>),
    Missing,
    Panics,
}

impl View for EmbeddedScan {
    type V = Scan;

    open spec fn view(&self) -> Scan {
        match self {
            EmbeddedScan::Found(v) => Scan::Found(v@),
            EmbeddedScan::Missing => Scan::Missing,
            EmbeddedScan::Panics => Scan::Panics,
        }
    }
}

/// Results from the injected script element.
fn script_results_of(h: &[char]) -> (r: Option<Vec<JsonValue>>)
    ensures
        match script_results(h@) {
            Some(rs) => r matches Some(v) && v@ == rs,
            None => r is None,
        },
{
    let tag = chars_of("<script id=\"tarzi-brave-results\" type=\"application/json\">");
    let st = match next_match(h, tag.as_slice(), 0) {
        Some(x) => x,
        None => {
            return None;
        },
    };
    let close = chars_of("</script>");
    let cl = match next_match(h, close.as_slice(), st) {
        Some(x) => x,
        None => {
            return None;
        },
    };
    proof {
        lemma_next_occurrence_range(h@, tag@, 0);
        lemma_next_occurrence_range(h@, close@, st as int);
    }
    let seg = slice_chars(h, st, cl);
    let gt = chars_of(">");
    let j = match next_match(seg.as_slice(), gt.as_slice(), 0) {
        Some(x) => x,
        None => {
            return None;
        },
    };
    proof {
        lemma_next_occurrence_range(seg@, gt@, 0);
        reveal_strlit(">");
    }
    let payload = slice_chars(seg.as_slice(), j + 1, seg.len());
    let text = string_of(payload.as_slice());
    match parse_json(text.as_str()) {
        Err(_) => None,
        Ok(v) => match v.into_member("results") {
            Some(JsonValue::Array(a)) => {
                let kept = keep_titled_vec(a);
                if kept.len() > 0 {
                    Some(kept)
                } else {
                    None
                }
            },
            _ => None,
        },
    }
}

impl BraveParser {
    /// The `{title:` object literal pattern.
    fn object_scan(&self, t: &Utf8Text, html: &str) -> (r: EmbeddedScan)
        requires
            t.wf(),
            t.chars@ == html@,
        ensures
            r@ == object_results(html@),
    {
        let ghost h = html@;
        let pat = chars_of("{title:");
        let c = match next_match(t.chars.as_slice(), pat.as_slice(), 0) {
            None => {
                return EmbeddedScan::Missing;
            },
            Some(c) => c,
        };
        proof {
            lemma_next_occurrence_range(h, pat@, 0);
            lemma_char_at_byte(h, c as int);
        }
        let sb = t.offsets[c];
        let end = match self.find_single_object_end(html, sb) {
            None => {
                return EmbeddedScan::Missing;
            },
            Some(e) => e,
        };
        let n = t.chars.len();
        let total = t.offsets[n];
        proof {
            let e = balanced_end(h, c as int, '{', '}', 0, false, false)->0;
            lemma_balanced_end_range(h, c as int, '{', '}', 0, false, false);
            lemma_byte_at_grows(h, c as int, e);
            lemma_byte_at_grows(h, e, e + 1);
            lemma_byte_at_grows(h, e + 1, n as int);
            assert(t.offsets@[n as int] == byte_at(h, n as int));
            assert(h.subrange(0, n as int) =~= h);
            assert(end == sb + (e - c));
        }
        let stop = end + 1;
        if t.char_at(stop).is_none() {
            return EmbeddedScan::Panics;
        }
        let piece = slice_bytes(t, sb, stop);
        let js = string_of(piece.as_slice());
        let fixed = match fix_js_object(js.as_str()) {
            None => {
                return EmbeddedScan::Panics;
            },
            Some(f) => f,
        };
        match parse_json(fixed.as_str()) {
            Ok(v) => if has_titles(&v) {
                let found = vec![v];
                assert(found@ =~= seq![v]);
                EmbeddedScan::Found(found)
            } else {
                EmbeddedScan::Missing
            },
            Err(_) => EmbeddedScan::Missing,
        }
    }

    /// The search for a JSON array around each `"title":`.
    fn array_scan(&self, t: &Utf8Text, html: &str) -> (r: EmbeddedScan)
        requires
            t.wf(),
            t.chars@ == html@,
        ensures
            r@ == array_results_from(html@, 0),
    {
        let ghost h = html@;
        let pat = chars_of("\"title\":");
        let n = t.chars.len();
        let mut cur: usize = 0;
        while cur <= n
            invariant
                t.wf(),
                t.chars@ == h,
                h == html@,
                n == h.len(),
                pat@ == "\"title\":"@,
                array_results_from(h, 0) == array_results_from(h, cur as int),
            decreases n + 1 - cur,
        {
            let p = match next_match(t.chars.as_slice(), pat.as_slice(), cur) {
                None => {
                    return EmbeddedScan::Missing;
                },
                Some(p) => p,
            };
            proof {
                lemma_next_occurrence_range(h, pat@, cur as int);
                reveal_strlit("\"title\":");
            }
            let pb = t.offsets[p];
            let next = p + 1;
            let found = self.find_array_start(html, pb);
            if found.is_none() {
                cur = next;
                continue;
            }
            let i = found.unwrap();
            proof {
                let lo: int = if pb >= 1000 { pb - 1000 } else { 0 };
                lemma_last_bracket_range(h, lo, pb as int);
            }
            let i1 = i + 1;
            let c1 = match t.char_at(i1) {
                None => {
                    return EmbeddedScan::Panics;
                },
                Some(c1) => c1,
            };
            let ae = match self.find_json_end(html, i1) {
                None => {
                    cur = next;
                    continue;
                },
                Some(ae) => ae,
            };
            proof {
                let e = balanced_end(h, c1 as int, '[', ']', 0, false, false)->0;
                lemma_balanced_end_range(h, c1 as int, '[', ']', 0, false, false);
                lemma_byte_at_grows(h, c1 as int, e);
                lemma_byte_at_grows(h, e, n as int);
                assert(t.offsets@[n as int] == byte_at(h, n as int));
                assert(t.offsets@[c1 as int] == byte_at(h, c1 as int));
                assert(ae == i1 + (e - c1));
            }
            if t.char_at(ae).is_none() {
                return EmbeddedScan::Panics;
            }
            let piece = slice_bytes(t, i1, ae);
            let text = string_of(piece.as_slice());
            match parse_json(text.as_str()) {
                Ok(JsonValue::Array(a)) => {
                    let kept = keep_titled_vec(a);
                    if kept.len() > 0 {
                        return EmbeddedScan::Found(kept);
                    }
                },
                _ => {},
            }
            cur = next;
        }
        EmbeddedScan::Missing
    }

    /// Looks for embedded results without the precondition of
    /// `extract_json_results`: reports the inputs on which that search panics.
    pub fn scan_embedded(&self, html: &str) -> (r: EmbeddedScan)
        ensures
            r@ == embedded_results(html@),
    {
        let t = Utf8Text::of(html);
        match script_results_of(t.chars.as_slice()) {
            Some(rs) => {
                return EmbeddedScan::Found(rs);
            },
            None => {},
        }
        let o = self.object_scan(&t, html);
        match o {
            EmbeddedScan::Missing => self.array_scan(&t, html),
            other => other,
        }
    }

    /// The result objects embedded in a Brave page as JSON.
    pub fn extract_json_results(&self, html: &str) -> (r: Option<Vec<JsonValue>>)
        requires
            !(embedded_results(html@) is Panics),
        ensures
            match embedded_results(html@) {
                Scan::Found(rs) => r matches Some(v) && v@ == rs,
                _ => r is None,
            },
    {
        match self.scan_embedded(html) {
            EmbeddedScan::Found(v) => Some(v),
            _ => None,
        }
    }
}

} // verus!

verus! {

/// Undoes the HTML escapes in a Brave snippet.
fn clean_snippet_text(s: String) -> (r: String)
    ensures
        r@ == clean_snippet(s@),
{
    proof {
        reveal_strlit("\\u003Cstrong\\u003E");
        reveal_strlit("\\u003C/strong\\u003E");
        reveal_strlit("\\u003C");
        reveal_strlit("\\u003E");
        reveal_strlit("&quot;");
        reveal_strlit("&#x27;");
        reveal_strlit("&amp;");
    }
    let a = str_replace(s.as_str(), "\\u003Cstrong\\u003E", "");
    let b = str_replace(a.as_str(), "\\u003C/strong\\u003E", "");
    let c = str_replace(b.as_str(), "\\u003C", "<");
    let d = str_replace(c.as_str(), "\\u003E", ">");
    let e = str_replace(d.as_str(), "&quot;", "\"");
    let f = str_replace(e.as_str(), "&#x27;", "'");
    str_replace(f.as_str(), "&amp;", "&")
}

impl BraveParser {
    /// What one JSON result yields.
    pub fn parse_json_result(&self, json_result: &JsonValue) -> (r: Option<Candidate>)
        ensures
            entry_of(r) == json_entry(*json_result),
    {
        let title = match json_result.str_member("title") {
            Some(t) => t.clone(),
            None => {
                return None;
            },
        };
        let url = match json_result.str_member("url") {
            Some(u) => u.clone(),
            None => {
                return None;
            },
        };
        let described = match json_result.get("description") {
            Some(x) => x.as_str(),
            None => match json_result.get("snippet") {
                Some(x) => x.as_str(),
                None => None,
            },
        };
        let raw = match described {
            Some(d) => d.clone(),
            None => String::new(),
        };
        let snippet = clean_snippet_text(raw);
        if !title.as_str().is_empty() && !url.as_str().is_empty() {
            Some(Candidate { title, url, snippet })
        } else {
            None
        }
    }

    /// Results from the first `limit` JSON values, ranked by position.
    fn json_hits(&self, rs: &Vec<JsonValue>, limit: usize) -> (r: Vec<SearchResult>)
        ensures
            hits(r@) == json_hits_from(rs@, 0, limit as nat, Seq::empty()),
    {
        let mut results: Vec<SearchResult> = Vec::new();
        assert(hits(results@) =~= Seq::<Hit>::empty());
        let mut i: usize = 0;
        while i < rs.len() && i < limit
            invariant
                i <= rs@.len(),
                json_hits_from(rs@, 0, limit as nat, Seq::empty()) == json_hits_from(rs@, i as int, limit as nat, hits(results@)),
            decreases rs.len() - i,
        {
            match self.parse_json_result(&rs[i]) {
                Some(c) => {
                    let ghost before = hits(results@);
                    results.push(SearchResult { title: c.title, url: c.url, snippet: c.snippet, rank: i + 1 });
                    assert(hits(results@) =~= before.push(
                        Hit { title: c.title@, url: c.url@, snippet: c.snippet@, rank: (i + 1) as nat },
                    ));
                },
                None => {},
            }
            i = i + 1;
        }
        results
    }

    /// What one result element of the HTML structure yields.
    pub fn extract_result_from_node(&self, page: &HtmlPage, node: usize) -> (r: Option<Candidate>)
        ensures
            entry_of(r) == brave_candidate(page@, node),
    {
        let mut title = String::new();
        let mut url = String::new();
        let heading = match first_in(page, node, Selector::Name, "h3", "") {
            Some(n) => Some(n),
            None => match first_in(page, node, Selector::Name, "h2", "") {
                Some(n) => Some(n),
                None => first_in(page, node, Selector::Name, "h1", ""),
            },
        };
        match heading {
            Some(hd) => match first_in(page, hd, Selector::Name, "a", "") {
                Some(l) => {
                    title = trimmed_text(page, l);
                    match attr_of(page, l, "href") {
                        Some(href) => {
                            url = self.normalize_url(href.as_str());
                        },
                        None => {},
                    }
                },
                None => {
                    title = trimmed_text(page, hd);
                },
            },
            None => {},
        }
        assert((title@, url@) == heading_title_url(page@, node));
        if title.as_str().is_empty() {
            match first_in(page, node, Selector::Name, "a", "") {
                Some(l) => {
                    title = trimmed_text(page, l);
                    match attr_of(page, l, "href") {
                        Some(href) => {
                            url = self.normalize_url(href.as_str());
                        },
                        None => {},
                    }
                },
                None => {},
            }
        }
        assert((title@, url@) == brave_title_url(page@, node));
        let probes = snippet_probes();
        let snippet = found_text(page, node, &probes);
        if !title.as_str().is_empty() && !url.as_str().is_empty() {
            Some(Candidate { title, url, snippet })
        } else {
            None
        }
    }

    /// The candidates of the elements a selector finds.
    fn pass(&self, page: &HtmlPage, sel: Selector, a: &str) -> (r: Vec<Option<Candidate>>)
        requires
            sel == Selector::Class || sel == Selector::Name,
        ensures
            entries(r@) == brave_pass_of(page@, sel, a@),
    {
        let nodes = find_all(page, sel, a, "");
        let mut out: Vec<Option<Candidate>> = Vec::new();
        let mut i: usize = 0;
        while i < nodes.len()
            invariant
                i <= nodes@.len(),
                nodes@ == document_find(page@, sel, a@, Seq::empty()),
                entries(out@) == brave_pass_of(page@, sel, a@).subrange(0, i as int),
            decreases nodes.len() - i,
        {
            let c = self.extract_result_from_node(page, nodes[i]);
            let ghost before = out@;
            out.push(c);
            assert(entries(out@) =~= entries(before).push(brave_pass_of(page@, sel, a@)[i as int]));
            i = i + 1;
            assert(entries(out@) =~= brave_pass_of(page@, sel, a@).subrange(0, i as int));
        }
        assert(brave_pass_of(page@, sel, a@).subrange(0, i as int) =~= brave_pass_of(page@, sel, a@));
        out
    }

    /// Results from the HTML structure: the first container selector whose
    /// elements give any, at most `limit`, ranked from 1.
    pub fn parse_html_fallback(&self, html: &str, limit: usize) -> (r: Result<Vec<SearchResult>, TarziError>)
        ensures
            r matches Ok(v) && hits(v@) == brave_fallback_from(html@, 0, limit as nat),
    {
        let page = HtmlPage::parse(html);
        let names: [&str; 6] = ["article", "result", "web-result", "snippet-content", "fdb-result", "result-row"];
        let mut k: usize = 0;
        while k < 6
            invariant
                k <= 6,
                page@ == html@,
                forall|j: int| 0 <= j < 6 ==> #[trigger] names@[j]@ == brave_containers()[j].1,
                brave_fallback_from(html@, 0, limit as nat) == brave_fallback_from(html@, k as int, limit as nat),
            decreases 6 - k,
        {
            let sel = if k == 0 {
                Selector::Name
            } else {
                Selector::Class
            };
            assert(sel == brave_containers()[k as int].0);
            assert(names@[k as int]@ == brave_containers()[k as int].1);
            let cands = self.pass(&page, sel, names[k]);
            let got = gather_hits(cands, limit, false);
            if got.len() > 0 {
                assert(hits(got@).len() > 0);
                return Ok(got);
            }
            assert(hits(got@).len() == 0);
            k = k + 1;
        }
        let none: Vec<SearchResult> = Vec::new();
        assert(hits(none@) =~= Seq::<Hit>::empty());
        Ok(none)
    }

    /// Parses a Brave result page: the embedded JSON results when there are
    /// any, else the HTML structure.
    pub fn parse(&self, html: &str, limit: usize) -> (r: Result<Vec<SearchResult>, TarziError>)
        requires
            !(embedded_results(html@) is Panics),
        ensures
            r matches Ok(v) && hits(v@) == brave_results(html@, limit as nat),
    {
        let mut results: Vec<SearchResult> = Vec::new();
        assert(hits(results@) =~= Seq::<Hit>::empty());
        match self.extract_json_results(html) {
            Some(rs) => {
                results = self.json_hits(&rs, limit);
            },
            None => {},
        }
        if results.len() == 0 {
            assert(hits(results@).len() == 0);
            return self.parse_html_fallback(html, limit);
        }
        assert(hits(results@).len() > 0);
        Ok(results)
    }

    /// `parse` on any page: `None` exactly on the pages where the search for
    /// embedded results would slice the text inside a character.
    pub fn parse_checked(&self, html: &str, limit: usize) -> (r: Option<Result<Vec<SearchResult>, TarziError>>)
        ensures
            r is None <==> embedded_results(html@) is Panics,
            r matches Some(Ok(v)) ==> hits(v@) == brave_results(html@, limit as nat),
            r matches Some(x) ==> x is Ok,
    {
        match self.scan_embedded(html) {
            EmbeddedScan::Panics => None,
            _ => Some(self.parse(html, limit)),
        }
    }
}

impl BaseParser for BraveParser {
    open spec fn parser_name(&self) -> Seq<char> {
        self@.0
    }

    open spec fn parser_kind(&self) -> SearchEngineType {
        self@.1
    }

    open spec fn gives(&self, html: Seq<char>, limit: nat, r: Result<Vec<SearchResult>, TarziError>) -> bool {
        parse_outcome(SearchEngineType::BraveSearch, html, limit, r)
    }

    open spec fn parse_allowed(&self, html: Seq<char>) -> bool {
        !(embedded_results(html) is Panics)
    }

    fn name(&self) -> &str {
        self.base.name()
    }

    fn engine_type(&self) -> SearchEngineType {
        self.base.engine_type()
    }

    fn parse(&self, html: &str, limit: usize) -> Result<Vec<SearchResult>, TarziError> {
        BraveParser::parse(self, html, limit)
    }
}

} // verus!
