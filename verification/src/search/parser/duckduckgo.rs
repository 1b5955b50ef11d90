//! Parser for DuckDuckGo result pages.
use vstd::prelude::*;
use crate::search::parser::parse_outcome;
use crate::error::TarziError;
use crate::html::{attr_of, document_find, find_all, node_attr, node_text, trimmed_text, HtmlPage, Selector};
use crate::search::parser::base::{
    absolute_url, absolute_url_of, append_candidates, entries, entry_of, found_text,
    found_text_from, gather, gather_hits, probe_first, probe_first_of, probe_views, BaseParser,
    BaseParserImpl, Candidate, Entry, Probe,
};
use crate::search::types::{hits, Hit, SearchEngineType, SearchResult};
use crate::text::{str_to_string, trim};

verus! {

/// DuckDuckGo web parser (HTML-based).
pub struct DuckDuckGoParser {
    base: BaseParserImpl,
}

impl View for DuckDuckGoParser {
    type V = (Seq<char>, SearchEngineType);

    closed spec fn view(&self) -> (Seq<char>, SearchEngineType) {
        self.base@
    }
}

/// The link selectors tried on a result element; the last one is any link.
pub open spec fn ddg_link_probes() -> Seq<(Selector, Seq<char>, Seq<char>)> {
    seq![
        (Selector::NameAndClass, "a"@, "eVNpHGjtxRBq_gLOfGDr"@),
        (Selector::NameAndClass, "a"@, "LQNqh2U1kzYxREs65IJu"@),
        (Selector::NameAndClass, "a"@, "result__a"@),
        (Selector::NameAndClass, "a"@, "serp-item__title"@),
        (Selector::NameAndClass, "a"@, "result__title"@),
        (Selector::Name, "a"@, Seq::empty()),
    ]
}

/// The snippet selectors tried on a result element.
pub open spec fn ddg_snippet_probes() -> Seq<(Selector, Seq<char>, Seq<char>)> {
    seq![
        (Selector::Class, "OgdwYG6KE2qthn9XQWFC"@, Seq::empty()),
        (Selector::Class, "kY2IgmnCmOGjharHErah"@, Seq::empty()),
        (Selector::Class, "result__snippet"@, Seq::empty()),
        (Selector::Class, "serp-item__snippet"@, Seq::empty()),
        (Selector::Class, "result__content"@, Seq::empty()),
        (Selector::Class, "web-result__snippet"@, Seq::empty()),
        (Selector::Class, "organic-result__snippet"@, Seq::empty()),
        (Selector::Class, "result__extras"@, Seq::empty()),
    ]
}

/// The class names of the result elements tried after `article` elements.
pub open spec fn ddg_legacy_containers() -> Seq<Seq<char>> {
    seq!["result__body"@, "serp-item"@, "result"@]
}

/// The node found by the first selector (from the `k`-th on) that finds one.
pub open spec fn found_node_from(html: Seq<char>, el: usize, probes: Seq<(Selector, Seq<char>, Seq<char>)>, k: int) -> Option<usize>
    decreases probes.len() - k,
{
    if k < 0 || k >= probes.len() {
        None
    } else {
        match probe_first(html, el, probes[k]) {
            Some(n) => Some(n),
            None => found_node_from(html, el, probes, k + 1),
        }
    }
}

/// What one result element yields: the text and link of its title link
/// (relative links made absolute under `https://duckduckgo.com`), both
/// required, and the text of the first snippet element found.
pub open spec fn ddg_candidate(html: Seq<char>, el: usize) -> Option<Entry> {
    let (title, url) = match found_node_from(html, el, ddg_link_probes(), 0) {
        Some(l) => (trim(node_text(html, l)), match node_attr(html, l, "href"@) {
            Some(h) => absolute_url(h, "https://duckduckgo.com"@),
            None => Seq::empty(),
        }),
        None => (Seq::empty(), Seq::empty()),
    };
    if title.len() == 0 || url.len() == 0 {
        None
    } else {
        Some(Entry { title, url, snippet: found_text_from(html, el, ddg_snippet_probes(), 0) })
    }
}

pub open spec fn ddg_pass(html: Seq<char>, sel: Selector, a: Seq<char>) -> Seq<Option<Entry>> {
    document_find(html, sel, a, Seq::empty()).map_values(|n: usize| ddg_candidate(html, n))
}

/// Candidates of the `article` elements and then of the legacy classes
/// (the first `k` of them).
pub open spec fn ddg_passes(html: Seq<char>, k: int) -> Seq<Option<Entry>>
    decreases k,
{
    if k <= 0 {
        ddg_pass(html, Selector::Name, "article"@)
    } else {
        ddg_passes(html, k - 1) + ddg_pass(html, Selector::Class, ddg_legacy_containers()[k - 1])
    }
}

/// The results of a DuckDuckGo page: `article` elements first, then the
/// legacy result classes; the first of each link, at most `limit`, ranked
/// from 1.
pub open spec fn ddg_results(html: Seq<char>, limit: nat) -> Seq<Hit> {
    gather(ddg_passes(html, 3), limit, true)
}

fn link_probes() -> (r: Vec<Probe>)
    ensures
        probe_views(r@) == ddg_link_probes(),
{
    let r = vec![
        Probe { sel: Selector::NameAndClass, a: "a", b: "eVNpHGjtxRBq_gLOfGDr" },
        Probe { sel: Selector::NameAndClass, a: "a", b: "LQNqh2U1kzYxREs65IJu" },
        Probe { sel: Selector::NameAndClass, a: "a", b: "result__a" },
        Probe { sel: Selector::NameAndClass, a: "a", b: "serp-item__title" },
        Probe { sel: Selector::NameAndClass, a: "a", b: "result__title" },
        Probe { sel: Selector::Name, a: "a", b: "" },
    ];
    assert(probe_views(r@) =~= ddg_link_probes());
    r
}

fn snippet_probes() -> (r: Vec<Probe>)
    ensures
        probe_views(r@) == ddg_snippet_probes(),
{
    let r = vec![
        Probe { sel: Selector::Class, a: "OgdwYG6KE2qthn9XQWFC", b: "" },
        Probe { sel: Selector::Class, a: "kY2IgmnCmOGjharHErah", b: "" },
        Probe { sel: Selector::Class, a: "result__snippet", b: "" },
        Probe { sel: Selector::Class, a: "serp-item__snippet", b: "" },
        Probe { sel: Selector::Class, a: "result__content", b: "" },
        Probe { sel: Selector::Class, a: "web-result__snippet", b: "" },
        Probe { sel: Selector::Class, a: "organic-result__snippet", b: "" },
        Probe { sel: Selector::Class, a: "result__extras", b: "" },
    ];
    assert(probe_views(r@) =~= ddg_snippet_probes());
    r
}

impl DuckDuckGoParser {
    pub fn new() -> (r: DuckDuckGoParser)
        ensures
            r@ == ("DuckDuckGoParser"@, SearchEngineType::DuckDuckGo),
    {
        DuckDuckGoParser {
            base: BaseParserImpl::new(str_to_string("DuckDuckGoParser"), SearchEngineType::DuckDuckGo),
        }
    }

    pub fn name(&self) -> (r: &str)
        ensures
            r@ == self@.0,
    {
        self.base.name()
    }

    pub fn engine_type(&self) -> (r: SearchEngineType)
        ensures
            r == self@.1,
    {
        self.base.engine_type()
    }

    pub fn supports(&self, engine_type: &SearchEngineType) -> (r: bool)
        ensures
            r == (self@.1 == *engine_type),
    {
        self.base.supports(engine_type)
    }

    fn title_link(page: &HtmlPage, el: usize) -> (r: Option<usize>)
        ensures
            r == found_node_from(page@, el, ddg_link_probes(), 0),
    {
        let probes = link_probes();
        let ghost ps = probe_views(probes@);
        let mut k: usize = 0;
        while k < probes.len()
            invariant
                k <= probes@.len(),
                ps == probe_views(probes@),
                ps == ddg_link_probes(),
                found_node_from(page@, el, ps, 0) == found_node_from(page@, el, ps, k as int),
            decreases probes.len() - k,
        {
            assert(ps[k as int] == probes@[k as int]@);
            match probe_first_of(page, el, &probes[k]) {
                Some(n) => {
                    return Some(n);
                },
                None => {},
            }
            k = k + 1;
        }
        None
    }

    /// What one result element yields (the seen-URL check is done when the
    /// results are gathered).
    fn process_result_element(page: &HtmlPage, el: usize) -> (r: Option<Candidate>)
        ensures
            entry_of(r) == ddg_candidate(page@, el),
    {
        let (title, url) = match Self::title_link(page, el) {
            Some(l) => {
                let t = trimmed_text(page, l);
                let u = match attr_of(page, l, "href") {
                    Some(h) => absolute_url_of(h.as_str(), "https://duckduckgo.com"),
                    None => String::new(),
                };
                (t, u)
            },
            None => (String::new(), String::new()),
        };
        if title.as_str().is_empty() || url.as_str().is_empty() {
            return None;
        }
        let probes = snippet_probes();
        let snippet = found_text(page, el, &probes);
        Some(Candidate { title, url, snippet })
    }

    fn pass(page: &HtmlPage, sel: Selector, a: &str) -> (r: Vec<Option<Candidate>>)
        requires
            sel == Selector::Class || sel == Selector::Name,
        ensures
            entries(r@) == ddg_pass(page@, sel, a@),
    {
        let nodes = find_all(page, sel, a, "");
        let mut out: Vec<Option<Candidate>> = Vec::new();
        let mut i: usize = 0;
        while i < nodes.len()
            invariant
                i <= nodes@.len(),
                nodes@ == document_find(page@, sel, a@, Seq::empty()),
                entries(out@) == ddg_pass(page@, sel, a@).subrange(0, i as int),
            decreases nodes.len() - i,
        {
            let c = Self::process_result_element(page, nodes[i]);
            let ghost before = out@;
            out.push(c);
            assert(entries(out@) =~= entries(before).push(ddg_pass(page@, sel, a@)[i as int]));
            i = i + 1;
            assert(entries(out@) =~= ddg_pass(page@, sel, a@).subrange(0, i as int));
        }
        assert(ddg_pass(page@, sel, a@).subrange(0, i as int) =~= ddg_pass(page@, sel, a@));
        out
    }

    /// The candidates of a page: `article` elements, then the legacy classes.
    pub fn candidates(page: &HtmlPage) -> (r: Vec<Option<Candidate>>)
        ensures
            entries(r@) == ddg_passes(page@, 3),
    {
        let classes: [&str; 3] = ["result__body", "serp-item", "result"];
        let mut out = Self::pass(page, Selector::Name, "article");
        let mut k: usize = 0;
        while k < 3
            invariant
                k <= 3,
                forall|j: int| 0 <= j < 3 ==> #[trigger] classes@[j]@ == ddg_legacy_containers()[j],
                entries(out@) == ddg_passes(page@, k as int),
            decreases 3 - k,
        {
            let more = Self::pass(page, Selector::Class, classes[k]);
            append_candidates(&mut out, more);
            k = k + 1;
        }
        out
    }

    /// Parses a DuckDuckGo result page.
    pub fn parse(&self, html: &str, limit: usize) -> (r: Result<Vec<SearchResult>, TarziError>)
        ensures
            r matches Ok(v) && hits(v@) == ddg_results(html@, limit as nat),
    {
        let page = HtmlPage::parse(html);
        let cands = Self::candidates(&page);
        Ok(gather_hits(cands, limit, true))
    }
}

impl BaseParser for DuckDuckGoParser {
    open spec fn parser_name(&self) -> Seq<char> {
        self@.0
    }

    open spec fn parser_kind(&self) -> SearchEngineType {
        self@.1
    }

    open spec fn gives(&self, html: Seq<char>, limit: nat, r: Result<Vec<SearchResult>, TarziError>) -> bool {
        parse_outcome(SearchEngineType::DuckDuckGo, html, limit, r)
    }

    open spec fn parse_allowed(&self, html: Seq<char>) -> bool {
        true
    }

    fn name(&self) -> &str {
        self.base.name()
    }

    fn engine_type(&self) -> SearchEngineType {
        self.base.engine_type()
    }

    fn parse(&self, html: &str, limit: usize) -> Result<Vec<SearchResult>, TarziError> {
        DuckDuckGoParser::parse(self, html, limit)
    }
}

} // verus!
