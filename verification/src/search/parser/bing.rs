//! Parser for Bing result pages.
use vstd::prelude::*;
use crate::search::parser::parse_outcome;
use crate::error::TarziError;
use crate::html::{
    attr_of, find_all, first_in, first_node, node_attr, node_find, node_text, trimmed_text,
    document_find, HtmlPage, Selector,
};
use crate::search::parser::base::{
    absolute_from_root, absolute_from_root_url, entries, entry_of, gather, gather_hits,
    BaseParser, BaseParserImpl, Candidate, Entry,
};
use crate::search::types::{hits, Hit, SearchEngineType, SearchResult};
use crate::text::{str_to_string, trim};

verus! {

pub struct BingParser {
    base: BaseParserImpl,
}

impl View for BingParser {
    type V = (Seq<char>, SearchEngineType);

    closed spec fn view(&self) -> (Seq<char>, SearchEngineType) {
        self.base@
    }
}

/// What one `b_algo` element yields: the text and link of its first
/// `h2 a` (relative links are put under `https://www.bing.com`) and the text of
/// its first `.b_caption p`; elements without a title yield nothing.
pub open spec fn bing_candidate(html: Seq<char>, node: usize) -> Option<Entry> {
    let link = first_node(node_find(html, node, Selector::NameInName, "h2"@, "a"@));
    let title = match link {
        Some(l) => trim(node_text(html, l)),
        None => Seq::empty(),
    };
    let url = match link {
        Some(l) => match node_attr(html, l, "href"@) {
            Some(h) => absolute_from_root(h, "https://www.bing.com"@),
            None => Seq::empty(),
        },
        None => Seq::empty(),
    };
    let snippet = match first_node(node_find(html, node, Selector::NameInClass, "b_caption"@, "p"@)) {
        Some(p) => trim(node_text(html, p)),
        None => Seq::empty(),
    };
    if title.len() > 0 {
        Some(Entry { title, url, snippet })
    } else {
        None
    }
}

/// The candidates of a Bing page, one per `b_algo` element in document order.
pub open spec fn bing_candidates(html: Seq<char>) -> Seq<Option<Entry>> {
    document_find(html, Selector::Class, "b_algo"@, Seq::empty()).map_values(
        |n: usize| bing_candidate(html, n),
    )
}

/// The results of a Bing page: the first `limit` elements with a title,
/// ranked from 1.
pub open spec fn bing_results(html: Seq<char>, limit: nat) -> Seq<Hit> {
    gather(bing_candidates(html), limit, false)
}

impl BingParser {
    pub fn new() -> (r: BingParser)
        ensures
            r@ == ("BingParser"@, SearchEngineType::Bing),
    {
        BingParser { base: BaseParserImpl::new(str_to_string("BingParser"), SearchEngineType::Bing) }
    }

    pub fn name(&self) -> (r: &str)
        ensures
            r@ == self@.0,
    {
        self.base.name()
    }

    pub fn engine_type(&self) -> (r: SearchEngineType)
        ensures
            r == self@.1,
    {
        self.base.engine_type()
    }

    pub fn supports(&self, engine_type: &SearchEngineType) -> (r: bool)
        ensures
            r == (self@.1 == *engine_type),
    {
        self.base.supports(engine_type)
    }

    fn candidate(page: &HtmlPage, node: usize) -> (r: Option<Candidate>)
        ensures
            entry_of(r) == bing_candidate(page@, node),
    {
        let link = first_in(page, node, Selector::NameInName, "h2", "a");
        let title = match link {
            Some(l) => trimmed_text(page, l),
            None => String::new(),
        };
        let url = match link {
            Some(l) => match attr_of(page, l, "href") {
                Some(h) => absolute_from_root_url(h.as_str(), "https://www.bing.com"),
                None => String::new(),
            },
            None => String::new(),
        };
        let snippet = match first_in(page, node, Selector::NameInClass, "b_caption", "p") {
            Some(p) => trimmed_text(page, p),
            None => String::new(),
        };
        if !title.as_str().is_empty() {
            Some(Candidate { title, url, snippet })
        } else {
            None
        }
    }

    /// The candidates of every `b_algo` element of the page.
    pub fn candidates(page: &HtmlPage) -> (r: Vec<Option<Candidate>>)
        ensures
            entries(r@) == bing_candidates(page@),
    {
        let nodes = find_all(page, Selector::Class, "b_algo", "");
        let mut out: Vec<Option<Candidate>> = Vec::new();
        let mut i: usize = 0;
        while i < nodes.len()
            invariant
                i <= nodes@.len(),
                nodes@ == document_find(page@, Selector::Class, "b_algo"@, Seq::empty()),
                entries(out@) == bing_candidates(page@).subrange(0, i as int),
            decreases nodes.len() - i,
        {
            let c = Self::candidate(page, nodes[i]);
            let ghost before = out@;
            out.push(c);
            assert(entries(out@) =~= entries(before).push(bing_candidates(page@)[i as int]));
            i = i + 1;
            assert(entries(out@) =~= bing_candidates(page@).subrange(0, i as int));
        }
        assert(bing_candidates(page@).subrange(0, i as int) =~= bing_candidates(page@));
        out
    }

    /// Parses a Bing result page.
    pub fn parse(&self, html: &str, limit: usize) -> (r: Result<Vec<SearchResult>, TarziError>)
        ensures
            r matches Ok(v) && hits(v@) == bing_results(html@, limit as nat),
    {
        let page = HtmlPage::parse(html);
        let cands = Self::candidates(&page);
        Ok(gather_hits(cands, limit, false))
    }
}

impl BaseParser for BingParser {
    open spec fn parser_name(&self) -> Seq<char> {
        self@.0
    }

    open spec fn parser_kind(&self) -> SearchEngineType {
        self@.1
    }

    open spec fn gives(&self, html: Seq<char>, limit: nat, r: Result<Vec<SearchResult>, TarziError>) -> bool {
        parse_outcome(SearchEngineType::Bing, html, limit, r)
    }

    open spec fn parse_allowed(&self, html: Seq<char>) -> bool {
        true
    }

    fn name(&self) -> &str {
        self.base.name()
    }

    fn engine_type(&self) -> SearchEngineType {
        self.base.engine_type()
    }

    fn parse(&self, html: &str, limit: usize) -> Result<Vec<SearchResult>, TarziError> {
        BingParser::parse(self, html, limit)
    }
}

} // verus!
