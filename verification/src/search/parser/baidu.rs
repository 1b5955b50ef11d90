//! Parser for Baidu result pages.
use vstd::prelude::*;
use crate::search::parser::parse_outcome;
use crate::error::TarziError;
use crate::html::{
    attr_of, document_find, find_all, first_in, first_node, node_attr, node_find, node_text,
    trimmed_text, HtmlPage, Selector,
};
use crate::search::parser::base::{
    entries, entry_of, gather, gather_hits, BaseParser, BaseParserImpl, Candidate, Entry,
};
use crate::search::types::{hits, Hit, SearchEngineType, SearchResult};
use crate::text::{str_to_string, trim};

verus! {

pub struct BaiduParser {
    base: BaseParserImpl,
}

impl View for BaiduParser {
    type V = (Seq<char>, SearchEngineType);

    closed spec fn view(&self) -> (Seq<char>, SearchEngineType) {
        self.base@
    }
}

/// What one `.result.c-container` element yields: nothing for an ad (an
/// element with a `data-tuiguang` attribute); otherwise the text and `href` of
/// its first `h3 a` and the text of its first `.c-abstract`, when both title
/// and link are non-empty.
pub open spec fn baidu_candidate(html: Seq<char>, node: usize) -> Option<Entry> {
    if node_attr(html, node, "data-tuiguang"@) is Some {
        None
    } else {
        let link = first_node(node_find(html, node, Selector::NameInName, "h3"@, "a"@));
        let title = match link {
            Some(l) => trim(node_text(html, l)),
            None => Seq::empty(),
        };
        let url = match link {
            Some(l) => match node_attr(html, l, "href"@) {
                Some(h) => h,
                None => Seq::empty(),
            },
            None => Seq::empty(),
        };
        let snippet = match first_node(node_find(html, node, Selector::Class, "c-abstract"@, Seq::empty())) {
            Some(p) => trim(node_text(html, p)),
            None => Seq::empty(),
        };
        if title.len() > 0 && url.len() > 0 {
            Some(Entry { title, url, snippet })
        } else {
            None
        }
    }
}

pub open spec fn baidu_candidates(html: Seq<char>) -> Seq<Option<Entry>> {
    document_find(html, Selector::ClassAndClass, "result"@, "c-container"@).map_values(
        |n: usize| baidu_candidate(html, n),
    )
}

/// The results of a Baidu page: the first `limit` organic results with a
/// title and a link, ranked from 1.
pub open spec fn baidu_results(html: Seq<char>, limit: nat) -> Seq<Hit> {
    gather(baidu_candidates(html), limit, false)
}

impl BaiduParser {
    pub fn new() -> (r: BaiduParser)
        ensures
            r@ == ("BaiduParser"@, SearchEngineType::Baidu),
    {
        BaiduParser { base: BaseParserImpl::new(str_to_string("BaiduParser"), SearchEngineType::Baidu) }
    }

    pub fn name(&self) -> (r: &str)
        ensures
            r@ == self@.0,
    {
        self.base.name()
    }

    pub fn engine_type(&self) -> (r: SearchEngineType)
        ensures
            r == self@.1,
    {
        self.base.engine_type()
    }

    pub fn supports(&self, engine_type: &SearchEngineType) -> (r: bool)
        ensures
            r == (self@.1 == *engine_type),
    {
        self.base.supports(engine_type)
    }

    fn candidate(page: &HtmlPage, node: usize) -> (r: Option<Candidate>)
        ensures
            entry_of(r) == baidu_candidate(page@, node),
    {
        if attr_of(page, node, "data-tuiguang").is_some() {
            return None;
        }
        let link = first_in(page, node, Selector::NameInName, "h3", "a");
        let title = match link {
            Some(l) => trimmed_text(page, l),
            None => String::new(),
        };
        let url = match link {
            Some(l) => match attr_of(page, l, "href") {
                Some(h) => h,
                None => String::new(),
            },
            None => String::new(),
        };
        let snippet = match first_in(page, node, Selector::Class, "c-abstract", "") {
            Some(p) => trimmed_text(page, p),
            None => String::new(),
        };
        if !title.as_str().is_empty() && !url.as_str().is_empty() {
            Some(Candidate { title, url, snippet })
        } else {
            None
        }
    }

    /// The candidates of every `.result.c-container` element of the page.
    pub fn candidates(page: &HtmlPage) -> (r: Vec<Option<Candidate>>)
        ensures
            entries(r@) == baidu_candidates(page@),
    {
        let nodes = find_all(page, Selector::ClassAndClass, "result", "c-container");
        let mut out: Vec<Option<Candidate>> = Vec::new();
        let mut i: usize = 0;
        while i < nodes.len()
            invariant
                i <= nodes@.len(),
                nodes@ == document_find(page@, Selector::ClassAndClass, "result"@, "c-container"@),
                entries(out@) == baidu_candidates(page@).subrange(0, i as int),
            decreases nodes.len() - i,
        {
            let c = Self::candidate(page, nodes[i]);
            let ghost before = out@;
            out.push(c);
            assert(entries(out@) =~= entries(before).push(baidu_candidates(page@)[i as int]));
            i = i + 1;
            assert(entries(out@) =~= baidu_candidates(page@).subrange(0, i as int));
        }
        assert(baidu_candidates(page@).subrange(0, i as int) =~= baidu_candidates(page@));
        out
    }

    /// Parses a Baidu result page.
    pub fn parse(&self, html: &str, limit: usize) -> (r: Result<Vec<SearchResult>, TarziError>)
        ensures
            r matches Ok(v) && hits(v@) == baidu_results(html@, limit as nat),
    {
        if limit == 0 {
            let v: Vec<SearchResult> = Vec::new();
            assert(hits(v@) =~= Seq::<Hit>::empty());
            return Ok(v);
        }
        let page = HtmlPage::parse(html);
        let cands = Self::candidates(&page);
        Ok(gather_hits(cands, limit, false))
    }
}

impl BaseParser for BaiduParser {
    open spec fn parser_name(&self) -> Seq<char> {
        self@.0
    }

    open spec fn parser_kind(&self) -> SearchEngineType {
        self@.1
    }

    open spec fn gives(&self, html: Seq<char>, limit: nat, r: Result<Vec<SearchResult>, TarziError>) -> bool {
        parse_outcome(SearchEngineType::Baidu, html, limit, r)
    }

    open spec fn parse_allowed(&self, html: Seq<char>) -> bool {
        true
    }

    fn name(&self) -> &str {
        self.base.name()
    }

    fn engine_type(&self) -> SearchEngineType {
        self.base.engine_type()
    }

    fn parse(&self, html: &str, limit: usize) -> Result<Vec<SearchResult>, TarziError> {
        BaiduParser::parse(self, html, limit)
    }
}

} // verus!
