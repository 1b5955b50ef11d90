//! Parser for Google result pages.
use vstd::prelude::*;
use crate::search::parser::parse_outcome;
use crate::error::TarziError;
use crate::html::{attr_of, document_find, find_all, node_attr, node_text, trimmed_text, HtmlPage, Selector};
use crate::search::parser::base::{
    append_candidates, entries, entry_of, first_text, first_text_from, gather, gather_hits,
    joined, probe_first, probe_first_of, probe_views, BaseParser, BaseParserImpl, Candidate,
    Entry, Probe,
};
use crate::search::types::{hits, Hit, SearchEngineType, SearchResult};
use crate::text::{has_prefix, str_starts_with, str_to_string, trim};

verus! {

/// Google web parser (HTML-based).
pub struct GoogleParser {
    base: BaseParserImpl,
}

impl View for GoogleParser {
    type V = (Seq<char>, SearchEngineType);

    closed spec fn view(&self) -> (Seq<char>, SearchEngineType) {
        self.base@
    }
}

/// Google's link normalization: absolute `http://`/`https://` links are kept,
/// protocol-relative ones get `https:`, root-relative ones go under
/// `https://www.google.com`, anything else is kept.
pub open spec fn google_url(href: Seq<char>) -> Seq<char> {
    if has_prefix(href, "http://"@) || has_prefix(href, "https://"@) {
        href
    } else if has_prefix(href, "//"@) {
        "https:"@ + href
    } else if has_prefix(href, "/"@) {
        "https://www.google.com"@ + href
    } else {
        href
    }
}

/// The link selectors tried on a result element, in order.
pub open spec fn google_link_probes() -> Seq<(Selector, Seq<char>, Seq<char>)> {
    seq![
        (Selector::NameInClass, "yuRUbf"@, "a"@),
        (Selector::NameAndClass, "a"@, "LC20lb"@),
        (Selector::NameAndClass, "a"@, "DKV0Md"@),
        (Selector::NameAndClass, "a"@, "result__a"@),
        (Selector::NameAndClass, "a"@, "serp-item__title"@),
        (Selector::NameInName, "h3"@, "a"@),
        (Selector::NameInName, "h2"@, "a"@),
        (Selector::Name, "a"@, Seq::empty()),
    ]
}

/// The snippet selectors tried on a result element, in order.
pub open spec fn google_snippet_probes() -> Seq<(Selector, Seq<char>, Seq<char>)> {
    seq![
        (Selector::Class, "IsZvec"@, Seq::empty()),
        (Selector::Class, "VwiC3b"@, Seq::empty()),
        (Selector::Class, "yXK7lf"@, Seq::empty()),
        (Selector::Class, "s"@, Seq::empty()),
        (Selector::Class, "st"@, Seq::empty()),
        (Selector::Class, "aCOpRe"@, Seq::empty()),
        (Selector::Class, "result__snippet"@, Seq::empty()),
        (Selector::Class, "serp-item__snippet"@, Seq::empty()),
        (Selector::Class, "web-result__snippet"@, Seq::empty()),
        (Selector::Class, "organic-result__snippet"@, Seq::empty()),
        (Selector::NameAndClass, "div"@, "snippet"@),
    ]
}

/// The result element classes, tried in order.
pub open spec fn google_containers() -> Seq<Seq<char>> {
    seq!["tF2Cxc"@, "g"@, "rc"@, "result"@, "serp-item"@]
}

/// Title and link found with one selector, when both are non-empty.
pub open spec fn google_link_at(html: Seq<char>, el: usize, p: (Selector, Seq<char>, Seq<char>)) -> Option<(Seq<char>, Seq<char>)> {
    match probe_first(html, el, p) {
        None => None,
        Some(l) => {
            let t = trim(node_text(html, l));
            let u = match node_attr(html, l, "href"@) {
                Some(h) => google_url(h),
                None => Seq::empty(),
            };
            if t.len() > 0 && u.len() > 0 {
                Some((t, u))
            } else {
                None
            }
        },
    }
}

/// Title and link of an element: from the first selector (from the `k`-th
/// on) that gives both, or two empty texts.
pub open spec fn google_title_url_from(
    html: Seq<char>,
    el: usize,
    probes: Seq<(Selector, Seq<char>, Seq<char>)>,
    k: int,
) -> (Seq<char>, Seq<char>)
    decreases probes.len() - k,
{
    if k < 0 || k >= probes.len() {
        (Seq::empty(), Seq::empty())
    } else {
        match google_link_at(html, el, probes[k]) {
            Some(tu) => tu,
            None => google_title_url_from(html, el, probes, k + 1),
        }
    }
}

/// What one result element yields: its title and link (both required) and
/// the first non-empty snippet.
pub open spec fn google_candidate(html: Seq<char>, el: usize) -> Option<Entry> {
    let tu = google_title_url_from(html, el, google_link_probes(), 0);
    if tu.0.len() == 0 || tu.1.len() == 0 {
        None
    } else {
        Some(Entry { title: tu.0, url: tu.1, snippet: first_text_from(html, el, google_snippet_probes(), 0) })
    }
}

pub open spec fn google_pass(html: Seq<char>, class: Seq<char>) -> Seq<Option<Entry>> {
    document_find(html, Selector::Class, class, Seq::empty()).map_values(|n: usize| google_candidate(html, n))
}

/// The candidates of the passes over the first `k` container classes.
pub open spec fn google_passes(html: Seq<char>, k: int) -> Seq<Option<Entry>>
    decreases k,
{
    if k <= 0 {
        Seq::empty()
    } else {
        google_passes(html, k - 1) + google_pass(html, google_containers()[k - 1])
    }
}

/// The results of a Google page: elements of each container class in turn,
/// the first of each link, at most `limit`, ranked from 1.
pub open spec fn google_results(html: Seq<char>, limit: nat) -> Seq<Hit> {
    gather(google_passes(html, 5), limit, true)
}

fn link_probes() -> (r: Vec<Probe>)
    ensures
        probe_views(r@) == google_link_probes(),
{
    let r = vec![
        Probe { sel: Selector::NameInClass, a: "yuRUbf", b: "a" },
        Probe { sel: Selector::NameAndClass, a: "a", b: "LC20lb" },
        Probe { sel: Selector::NameAndClass, a: "a", b: "DKV0Md" },
        Probe { sel: Selector::NameAndClass, a: "a", b: "result__a" },
        Probe { sel: Selector::NameAndClass, a: "a", b: "serp-item__title" },
        Probe { sel: Selector::NameInName, a: "h3", b: "a" },
        Probe { sel: Selector::NameInName, a: "h2", b: "a" },
        Probe { sel: Selector::Name, a: "a", b: "" },
    ];
    assert(probe_views(r@) =~= google_link_probes());
    r
}

fn snippet_probes() -> (r: Vec<Probe>)
    ensures
        probe_views(r@) == google_snippet_probes(),
{
    let r = vec![
        Probe { sel: Selector::Class, a: "IsZvec", b: "" },
        Probe { sel: Selector::Class, a: "VwiC3b", b: "" },
        Probe { sel: Selector::Class, a: "yXK7lf", b: "" },
        Probe { sel: Selector::Class, a: "s", b: "" },
        Probe { sel: Selector::Class, a: "st", b: "" },
        Probe { sel: Selector::Class, a: "aCOpRe", b: "" },
        Probe { sel: Selector::Class, a: "result__snippet", b: "" },
        Probe { sel: Selector::Class, a: "serp-item__snippet", b: "" },
        Probe { sel: Selector::Class, a: "web-result__snippet", b: "" },
        Probe { sel: Selector::Class, a: "organic-result__snippet", b: "" },
        Probe { sel: Selector::NameAndClass, a: "div", b: "snippet" },
    ];
    assert(probe_views(r@) =~= google_snippet_probes());
    r
}

impl GoogleParser {
    pub fn new() -> (r: GoogleParser)
        ensures
            r@ == ("GoogleParser"@, SearchEngineType::Google),
    {
        GoogleParser { base: BaseParserImpl::new(str_to_string("GoogleParser"), SearchEngineType::Google) }
    }

    pub fn name(&self) -> (r: &str)
        ensures
            r@ == self@.0,
    {
        self.base.name()
    }

    pub fn engine_type(&self) -> (r: SearchEngineType)
        ensures
            r == self@.1,
    {
        self.base.engine_type()
    }

    pub fn supports(&self, engine_type: &SearchEngineType) -> (r: bool)
        ensures
            r == (self@.1 == *engine_type),
    {
        self.base.supports(engine_type)
    }

    /// Google's link normalization.
    pub fn normalize_url(&self, href: &str) -> (r: String)
        ensures
            r@ == google_url(href@),
    {
        if str_starts_with(href, "http://") || str_starts_with(href, "https://") {
            str_to_string(href)
        } else if str_starts_with(href, "//") {
            joined("https:", href)
        } else if str_starts_with(href, "/") {
            joined("https://www.google.com", href)
        } else {
            str_to_string(href)
        }
    }

    fn extract_title_and_url(&self, page: &HtmlPage, el: usize) -> (r: (String, String))
        ensures
            (r.0@, r.1@) == google_title_url_from(page@, el, google_link_probes(), 0),
    {
        let probes = link_probes();
        let ghost ps = probe_views(probes@);
        let mut k: usize = 0;
        while k < probes.len()
            invariant
                k <= probes@.len(),
                ps == probe_views(probes@),
                ps == google_link_probes(),
                google_title_url_from(page@, el, ps, 0) == google_title_url_from(page@, el, ps, k as int),
            decreases probes.len() - k,
        {
            assert(ps[k as int] == probes@[k as int]@);
            match probe_first_of(page, el, &probes[k]) {
                Some(l) => {
                    let t = trimmed_text(page, l);
                    let u = match attr_of(page, l, "href") {
                        Some(h) => self.normalize_url(h.as_str()),
                        None => String::new(),
                    };
                    if !t.as_str().is_empty() && !u.as_str().is_empty() {
                        return (t, u);
                    }
                },
                None => {},
            }
            k = k + 1;
        }
        (String::new(), String::new())
    }

    fn candidate(&self, page: &HtmlPage, el: usize) -> (r: Option<Candidate>)
        ensures
            entry_of(r) == google_candidate(page@, el),
    {
        let (title, url) = self.extract_title_and_url(page, el);
        if title.as_str().is_empty() || url.as_str().is_empty() {
            return None;
        }
        let probes = snippet_probes();
        let snippet = first_text(page, el, &probes);
        Some(Candidate { title, url, snippet })
    }

    fn pass(&self, page: &HtmlPage, class: &str) -> (r: Vec<Option<Candidate>>)
        ensures
            entries(r@) == google_pass(page@, class@),
    {
        let nodes = find_all(page, Selector::Class, class, "");
        let mut out: Vec<Option<Candidate>> = Vec::new();
        let mut i: usize = 0;
        while i < nodes.len()
            invariant
                i <= nodes@.len(),
                nodes@ == document_find(page@, Selector::Class, class@, Seq::empty()),
                entries(out@) == google_pass(page@, class@).subrange(0, i as int),
            decreases nodes.len() - i,
        {
            let c = self.candidate(page, nodes[i]);
            let ghost before = out@;
            out.push(c);
            assert(entries(out@) =~= entries(before).push(google_pass(page@, class@)[i as int]));
            i = i + 1;
            assert(entries(out@) =~= google_pass(page@, class@).subrange(0, i as int));
        }
        assert(google_pass(page@, class@).subrange(0, i as int) =~= google_pass(page@, class@));
        out
    }

    /// The candidates of a page, container class by container class.
    pub fn candidates(&self, page: &HtmlPage) -> (r: Vec<Option<Candidate>>)
        ensures
            entries(r@) == google_passes(page@, 5),
    {
        let classes: [&str; 5] = ["tF2Cxc", "g", "rc", "result", "serp-item"];
        let mut out: Vec<Option<Candidate>> = Vec::new();
        assert(entries(out@) =~= google_passes(page@, 0));
        let mut k: usize = 0;
        while k < 5
            invariant
                k <= 5,
                forall|j: int| 0 <= j < 5 ==> #[trigger] classes@[j]@ == google_containers()[j],
                entries(out@) == google_passes(page@, k as int),
            decreases 5 - k,
        {
            let more = self.pass(page, classes[k]);
            append_candidates(&mut out, more);
            k = k + 1;
        }
        out
    }

    /// Parses a Google result page.
    pub fn parse(&self, html: &str, limit: usize) -> (r: Result<Vec<SearchResult>, TarziError>)
        ensures
            r matches Ok(v) && hits(v@) == google_results(html@, limit as nat),
    {
        let page = HtmlPage::parse(html);
        let cands = self.candidates(&page);
        Ok(gather_hits(cands, limit, true))
    }
}

impl BaseParser for GoogleParser {
    open spec fn parser_name(&self) -> Seq<char> {
        self@.0
    }

    open spec fn parser_kind(&self) -> SearchEngineType {
        self@.1
    }

    open spec fn gives(&self, html: Seq<char>, limit: nat, r: Result<Vec<SearchResult>, TarziError>) -> bool {
        parse_outcome(SearchEngineType::Google, html, limit, r)
    }

    open spec fn parse_allowed(&self, html: Seq<char>) -> bool {
        true
    }

    fn name(&self) -> &str {
        self.base.name()
    }

    fn engine_type(&self) -> SearchEngineType {
        self.base.engine_type()
    }

    fn parse(&self, html: &str, limit: usize) -> Result<Vec<SearchResult>, TarziError> {
        GoogleParser::parse(self, html, limit)
    }
}

} // verus!
