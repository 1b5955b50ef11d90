//! The parser trait, the common parser record, and the selection of results
//! from per-element candidates that all web parsers share.
use vstd::prelude::*;
use crate::error::TarziError;
use crate::search::types::{hits, Hit, SearchEngineType, SearchResult};
use crate::text::{has_prefix, str_eq, str_starts_with, trim};
use crate::html::{first_in, first_node, node_find, node_text, second_arg, trimmed_text, HtmlPage, Selector};

verus! {

/// Base trait for all search result parsers.
pub trait BaseParser {
    /// The parser's name.
    spec fn parser_name(&self) -> Seq<char>;

    /// The engine the parser is for.
    spec fn parser_kind(&self) -> SearchEngineType;

    /// Whether `r` is what the parser gives for a page and a limit.
    spec fn gives(&self, html: Seq<char>, limit: nat, r: Result<Vec<SearchResult>, TarziError>) -> bool;

    /// Get the name of the parser.
    fn name(&self) -> (r: &str)
        ensures
            r@ == self.parser_name(),
    ;

    /// Get the engine type this parser supports.
    fn engine_type(&self) -> (r: SearchEngineType)
        ensures
            r == self.parser_kind(),
    ;

    /// Check if this parser can handle the given search engine type.
    fn supports(&self, engine_type: &SearchEngineType) -> (r: bool)
        ensures
            r == (self.parser_kind() == *engine_type),
    {
        self.engine_type() == *engine_type
    }

    /// Whether parsing `html` runs to completion; false on the inputs on
    /// which the parser's byte/character position handling panics.
    spec fn parse_allowed(&self, html: Seq<char>) -> bool;

    /// Parse search results from page content.
    fn parse(&self, html: &str, limit: usize) -> (r: Result<Vec<SearchResult>, TarziError>)
        requires
            self.parse_allowed(html@),
        ensures
            self.gives(html@, limit as nat, r),
    ;
}

/// Common base implementation for all parsers: a name and an engine type.
pub struct BaseParserImpl {
    name: String,
    engine_type: SearchEngineType,
}

impl View for BaseParserImpl {
    type V = (Seq<char>, SearchEngineType);

    closed spec fn view(&self) -> (Seq<char>, SearchEngineType) {
        (self.name@, self.engine_type)
    }
}

impl BaseParserImpl {
    pub fn new(name: String, engine_type: SearchEngineType) -> (r: BaseParserImpl)
        ensures
            r@ == (name@, engine_type),
    {
        BaseParserImpl { name, engine_type }
    }

    pub fn name(&self) -> (r: &str)
        ensures
            r@ == self@.0,
    {
        self.name.as_str()
    }

    pub fn engine_type(&self) -> (r: SearchEngineType)
        ensures
            r == self@.1,
    {
        self.engine_type
    }

    pub fn supports(&self, engine_type: &SearchEngineType) -> (r: bool)
        ensures
            r == (self@.1 == *engine_type),
    {
        self.engine_type == *engine_type
    }

    /// The base parser finds nothing.
    pub fn parse(&self, _html: &str, _limit: usize) -> (r: Result<Vec<SearchResult>, TarziError>)
        ensures
            r matches Ok(v) && v@.len() == 0,
    {
        Ok(Vec::new())
    }
}

impl BaseParser for BaseParserImpl {
    open spec fn parser_name(&self) -> Seq<char> {
        self@.0
    }

    open spec fn parser_kind(&self) -> SearchEngineType {
        self@.1
    }

    /// The base implementation finds nothing.
    open spec fn gives(&self, html: Seq<char>, limit: nat, r: Result<Vec<SearchResult>, TarziError>) -> bool {
        r matches Ok(v) && v@.len() == 0
    }

    open spec fn parse_allowed(&self, html: Seq<char>) -> bool {
        true
    }

    fn name(&self) -> &str {
        self.name.as_str()
    }

    fn engine_type(&self) -> SearchEngineType {
        self.engine_type
    }

    fn parse(&self, _html: &str, _limit: usize) -> Result<Vec<SearchResult>, TarziError> {
        Ok(Vec::new())
    }
}

/// What a parser extracted from one result element, before ranking.
pub struct Candidate {
    pub title: String,
    pub url: String,
    pub snippet: String,
}

/// The abstract content of a candidate.
pub struct Entry {
    pub title: Seq<char>,
    pub url: Seq<char>,
    pub snippet: Seq<char>,
}

impl View for Candidate {
    type V = Entry;

    open spec fn view(&self) -> Entry {
        Entry { title: self.title@, url: self.url@, snippet: self.snippet@ }
    }
}

pub open spec fn entry_of(c: Option<Candidate>) -> Option<Entry> {
    match c {
        Some(c) => Some(c@),
        None => None,
    }
}

pub open spec fn entries(v: Seq<Option<Candidate>>) -> Seq<Option<Entry>> {
    v.map_values(|c: Option<Candidate>| entry_of(c))
}

/// Some earlier result already has this URL.
pub open spec fn url_taken(acc: Seq<Hit>, url: Seq<char>) -> bool {
    exists|k: int| 0 <= k < acc.len() && acc[k].url == url
}

/// Walks the candidates from position `i` on, appending each present one to
/// `acc` (ranked by its position in the output, from 1) until `limit` results
/// are there; with `dedup`, a candidate whose URL is already in `acc` is passed
/// over.
pub open spec fn gather_from(
    cands: Seq<Option<Entry>>,
    i: int,
    limit: nat,
    dedup: bool,
    acc: Seq<Hit>,
) -> Seq<Hit>
    decreases cands.len() - i,
{
    if i < 0 || i >= cands.len() || acc.len() >= limit {
        acc
    } else {
        match cands[i] {
            None => gather_from(cands, i + 1, limit, dedup, acc),
            Some(e) => if dedup && url_taken(acc, e.url) {
                gather_from(cands, i + 1, limit, dedup, acc)
            } else {
                gather_from(
                    cands,
                    i + 1,
                    limit,
                    dedup,
                    acc.push(Hit { title: e.title, url: e.url, snippet: e.snippet, rank: acc.len() + 1 }),
                )
            },
        }
    }
}

/// The results chosen from a list of candidates.
pub open spec fn gather(cands: Seq<Option<Entry>>, limit: nat, dedup: bool) -> Seq<Hit> {
    gather_from(cands, 0, limit, dedup, Seq::empty())
}

/// Whether one of the results already has URL `url`.
pub fn url_in(results: &Vec<SearchResult>, url: &str) -> (r: bool)
    ensures
        r == url_taken(hits(results@), url@),
{
    let mut k: usize = 0;
    while k < results.len()
        invariant
            k <= results.len(),
            forall|j: int| 0 <= j < k ==> hits(results@)[j].url != url@,
        decreases results.len() - k,
    {
        if str_eq(results[k].url.as_str(), url) {
            assert(hits(results@)[k as int].url == url@);
            return true;
        }
        k = k + 1;
    }
    false
}

/// Chooses the results from the candidates as `gather` describes: the first
/// `limit` present candidates (with `dedup`, the first of each URL), ranked
/// from 1.
pub fn gather_hits(cands: Vec<Option<Candidate>>, limit: usize, dedup: bool) -> (r: Vec<SearchResult>)
    ensures
        hits(r@) == gather(entries(cands@), limit as nat, dedup),
{
    let ghost all = entries(cands@);
    let mut results: Vec<SearchResult> = Vec::new();
    assert(hits(results@) =~= Seq::<Hit>::empty());
    let mut i: usize = 0;
    let n = cands.len();
    while i < n
        invariant
            n == all.len(),
            n == cands@.len(),
            all == entries(cands@),
            i <= n,
            gather(all, limit as nat, dedup) == gather_from(all, i as int, limit as nat, dedup, hits(results@)),
            results@.len() <= limit,
        ensures
            i >= n || results@.len() >= limit,
            gather(all, limit as nat, dedup) == gather_from(all, i as int, limit as nat, dedup, hits(results@)),
        decreases n - i,
    {
        if results.len() >= limit {
            break;
        }
        assert(entry_of(cands@[i as int]) == all[i as int]);
        match &cands[i] {
            None => {},
            Some(c) => {
                let taken = dedup && url_in(&results, c.url.as_str());
                if !taken {
                    let rank = results.len() + 1;
                    let ghost before = hits(results@);
                    results.push(
                        SearchResult {
                            title: c.title.clone(),
                            url: c.url.clone(),
                            snippet: c.snippet.clone(),
                            rank,
                        },
                    );
                    assert(hits(results@) =~= before.push(
                        Hit { title: c.title@, url: c.url@, snippet: c.snippet@, rank: before.len() + 1 },
                    ));
                }
            },
        }
        i = i + 1;
    }
    assert(gather_from(all, i as int, limit as nat, dedup, hits(results@)) == hits(results@));
    results
}

/// `prefix` followed by `href`.
pub fn joined(prefix: &str, href: &str) -> (r: String)
    ensures
        r@ == prefix@ + href@,
{
    crate::text::concat2(prefix, href)
}

/// Makes a link absolute the way the Bing and unified Google parsers do: a link
/// starting with `http` is kept, one starting with `/` is put under `origin`,
/// anything else is kept.
pub open spec fn absolute_from_root(href: Seq<char>, origin: Seq<char>) -> Seq<char> {
    if has_prefix(href, "http"@) {
        href
    } else if has_prefix(href, "/"@) {
        origin + href
    } else {
        href
    }
}

pub fn absolute_from_root_url(href: &str, origin: &str) -> (r: String)
    ensures
        r@ == absolute_from_root(href@, origin@),
{
    if str_starts_with(href, "http") {
        crate::text::str_to_string(href)
    } else if str_starts_with(href, "/") {
        joined(origin, href)
    } else {
        crate::text::str_to_string(href)
    }
}

/// Makes a link absolute the way the Brave and DuckDuckGo parsers do: like
/// `absolute_from_root`, and a protocol-relative `//host/..` link gets `https:`.
pub open spec fn absolute_url(href: Seq<char>, origin: Seq<char>) -> Seq<char> {
    if has_prefix(href, "http"@) {
        href
    } else if has_prefix(href, "//"@) {
        "https:"@ + href
    } else if has_prefix(href, "/"@) {
        origin + href
    } else {
        href
    }
}

pub fn absolute_url_of(href: &str, origin: &str) -> (r: String)
    ensures
        r@ == absolute_url(href@, origin@),
{
    if str_starts_with(href, "http") {
        crate::text::str_to_string(href)
    } else if str_starts_with(href, "//") {
        joined("https:", href)
    } else if str_starts_with(href, "/") {
        joined(origin, href)
    } else {
        crate::text::str_to_string(href)
    }
}

} // verus!

verus! {

/// A selector to try on an element: the selector shape and its arguments.
pub struct Probe {
    pub sel: Selector,
    pub a: &'static str,
    pub b: &'static str,
}

impl View for Probe {
    type V = (Selector, Seq<char>, Seq<char>);

    open spec fn view(&self) -> (Selector, Seq<char>, Seq<char>) {
        (self.sel, self.a@, second_arg(self.sel, self.b@))
    }
}

pub open spec fn probe_views(v: Seq<Probe>) -> Seq<(Selector, Seq<char>, Seq<char>)> {
    v.map_values(|p: Probe| p@)
}

/// The first node below `node` that a probe finds.
pub open spec fn probe_first(html: Seq<char>, node: usize, p: (Selector, Seq<char>, Seq<char>)) -> Option<usize> {
    first_node(node_find(html, node, p.0, p.1, p.2))
}

pub fn probe_first_of(page: &HtmlPage, node: usize, p: &Probe) -> (r: Option<usize>)
    ensures
        r == probe_first(page@, node, p@),
{
    first_in(page, node, p.sel, p.a, p.b)
}

/// Concatenation of a list of candidate lists.
pub open spec fn flatten_entries(parts: Seq<Seq<Option<Entry>>>) -> Seq<Option<Entry>>
    decreases parts.len(),
{
    if parts.len() == 0 {
        Seq::empty()
    } else {
        flatten_entries(parts.drop_last()) + parts.last()
    }
}

/// Appends the candidates of `more` to `out`.
pub fn append_candidates(out: &mut Vec<Option<Candidate>>, more: Vec<Option<Candidate>>)
    ensures
        entries(final(out)@) == entries(old(out)@) + entries(more@),
{
    let mut more = more;
    let ghost o = out@;
    let ghost m = more@;
    out.append(&mut more);
    assert(entries(out@) =~= entries(o) + entries(m));
}

} // verus!

verus! {

/// The trimmed text of the first node found by the first probe (from the
/// `k`-th on) whose node has non-empty trimmed text; empty if there is none.
pub open spec fn first_text_from(
    html: Seq<char>,
    node: usize,
    probes: Seq<(Selector, Seq<char>, Seq<char>)>,
    k: int,
) -> Seq<char>
    decreases probes.len() - k,
{
    if k < 0 || k >= probes.len() {
        Seq::empty()
    } else {
        match probe_first(html, node, probes[k]) {
            Some(n) => if trim(node_text(html, n)).len() > 0 {
                trim(node_text(html, n))
            } else {
                first_text_from(html, node, probes, k + 1)
            },
            None => first_text_from(html, node, probes, k + 1),
        }
    }
}

pub fn first_text(page: &HtmlPage, node: usize, probes: &Vec<Probe>) -> (r: String)
    ensures
        r@ == first_text_from(page@, node, probe_views(probes@), 0),
{
    let ghost ps = probe_views(probes@);
    let mut k: usize = 0;
    while k < probes.len()
        invariant
            k <= probes@.len(),
            ps == probe_views(probes@),
            first_text_from(page@, node, ps, 0) == first_text_from(page@, node, ps, k as int),
        decreases probes.len() - k,
    {
        assert(ps[k as int] == probes@[k as int]@);
        match probe_first_of(page, node, &probes[k]) {
            Some(n) => {
                let t = trimmed_text(page, n);
                if !t.as_str().is_empty() {
                    return t;
                }
            },
            None => {},
        }
        k = k + 1;
    }
    String::new()
}

/// The trimmed text of the first node the first probe (from the `k`-th on)
/// finds, even when that text is empty; empty when no probe finds a node.
pub open spec fn found_text_from(
    html: Seq<char>,
    node: usize,
    probes: Seq<(Selector, Seq<char>, Seq<char>)>,
    k: int,
) -> Seq<char>
    decreases probes.len() - k,
{
    if k < 0 || k >= probes.len() {
        Seq::empty()
    } else {
        match probe_first(html, node, probes[k]) {
            Some(n) => trim(node_text(html, n)),
            None => found_text_from(html, node, probes, k + 1),
        }
    }
}

pub fn found_text(page: &HtmlPage, node: usize, probes: &Vec<Probe>) -> (r: String)
    ensures
        r@ == found_text_from(page@, node, probe_views(probes@), 0),
{
    let ghost ps = probe_views(probes@);
    let mut k: usize = 0;
    while k < probes.len()
        invariant
            k <= probes@.len(),
            ps == probe_views(probes@),
            found_text_from(page@, node, ps, 0) == found_text_from(page@, node, ps, k as int),
        decreases probes.len() - k,
    {
        assert(ps[k as int] == probes@[k as int]@);
        match probe_first_of(page, node, &probes[k]) {
            Some(n) => {
                return trimmed_text(page, n);
            },
            None => {},
        }
        k = k + 1;
    }
    String::new()
}

} // verus!

verus! {

/// Walks the candidates of the first `limit` elements from position `i` on,
/// keeping the present ones, each ranked by its element's position (from 1).
pub open spec fn positional_from(cands: Seq<Option<Entry>>, i: int, limit: nat, acc: Seq<Hit>) -> Seq<Hit>
    decreases cands.len() - i,
{
    if i < 0 || i >= cands.len() || i >= limit {
        acc
    } else {
        match cands[i] {
            Some(e) => positional_from(
                cands,
                i + 1,
                limit,
                acc.push(Hit { title: e.title, url: e.url, snippet: e.snippet, rank: (i + 1) as nat }),
            ),
            None => positional_from(cands, i + 1, limit, acc),
        }
    }
}

/// The results of the first `limit` elements, ranked by element position.
pub open spec fn positional(cands: Seq<Option<Entry>>, limit: nat) -> Seq<Hit> {
    positional_from(cands, 0, limit, Seq::empty())
}

/// Chooses the results as `positional` describes.
pub fn positional_hits(cands: Vec<Option<Candidate>>, limit: usize) -> (r: Vec<SearchResult>)
    ensures
        hits(r@) == positional(entries(cands@), limit as nat),
{
    let ghost all = entries(cands@);
    let mut results: Vec<SearchResult> = Vec::new();
    assert(hits(results@) =~= Seq::<Hit>::empty());
    let mut i: usize = 0;
    while i < cands.len() && i < limit
        invariant
            i <= cands@.len(),
            all == entries(cands@),
            positional(all, limit as nat) == positional_from(all, i as int, limit as nat, hits(results@)),
        decreases cands.len() - i,
    {
        assert(entry_of(cands@[i as int]) == all[i as int]);
        match &cands[i] {
            None => {},
            Some(c) => {
                let ghost before = hits(results@);
                results.push(
                    SearchResult { title: c.title.clone(), url: c.url.clone(), snippet: c.snippet.clone(), rank: i + 1 },
                );
                assert(hits(results@) =~= before.push(
                    Hit { title: c.title@, url: c.url@, snippet: c.snippet@, rank: (i + 1) as nat },
                ));
            },
        }
        i = i + 1;
    }
    results
}

} // verus!
