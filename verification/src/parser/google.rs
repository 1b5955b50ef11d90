//! Google parsers of the unified interface: the web page parser and the two
//! JSON API parsers (Google and Serper).
use vstd::prelude::*;
use crate::error::TarziError;
use crate::html::{attr_of, document_find, find_all, first_in, first_node, node_attr, node_find, node_text, trimmed_text, HtmlPage, Selector};
use crate::parser::base::{
    api_outcome, parse_listed, ApiSearchParser, BaseApiParser, BaseSearchParser, BaseWebParser,
    SearchResultParser, WebSearchParser,
};
use crate::parser::engines::{same_engine, SearchEngineType};
use crate::search::parser::base::{
    absolute_from_root, absolute_from_root_url, entries, entry_of, positional, positional_hits, Candidate, Entry,
};
use crate::search::types::{hits, Hit, SearchResult};
use crate::text::{str_to_string, trim};

verus! {

/// What one `tF2Cxc` result element yields: the text and link of the first
/// link below a `yuRUbf` element (links from `/` made absolute under
/// `https://www.google.com`) and the text of the first `IsZvec` element;
/// nothing when the title is empty.
pub open spec fn google_web_entry(html: Seq<char>, el: usize) -> Option<Entry> {
    let link = first_node(node_find(html, el, Selector::NameInClass, "yuRUbf"@, "a"@));
    let title = match link {
        Some(l) => trim(node_text(html, l)),
        None => Seq::empty(),
    };
    let url = match link {
        Some(l) => match node_attr(html, l, "href"@) {
            Some(h) => absolute_from_root(h, "https://www.google.com"@),
            None => Seq::empty(),
        },
        None => Seq::empty(),
    };
    let snippet = match first_node(node_find(html, el, Selector::Class, "IsZvec"@, Seq::empty())) {
        Some(s) => trim(node_text(html, s)),
        None => Seq::empty(),
    };
    if title.len() > 0 {
        Some(Entry { title, url, snippet })
    } else {
        None
    }
}

pub open spec fn google_web_candidates(html: Seq<char>) -> Seq<Option<Entry>> {
    document_find(html, Selector::Class, "tF2Cxc"@, Seq::empty()).map_values(|n: usize| google_web_entry(html, n))
}

/// The results of a Google page: among the first `limit` result elements,
/// those with a title, ranked by element position from 1.
pub open spec fn google_web_results(html: Seq<char>, limit: nat) -> Seq<Hit> {
    positional(google_web_candidates(html), limit)
}

/// Google web parser (HTML-based).
pub struct GoogleParser {
    base: BaseWebParser,
}

impl GoogleParser {
    #[verifier::type_invariant]
    closed spec fn well_formed(self) -> bool {
        self.base@ == ("GoogleParser"@, SearchEngineType::Google)
    }

    pub fn new() -> (r: GoogleParser)
        ensures
            r.label() == "GoogleParser"@,
            r.engine() == SearchEngineType::Google,
    {
        let r = GoogleParser { base: BaseWebParser::new(str_to_string("GoogleParser"), SearchEngineType::Google) };
        proof {
            r.base.lemma_view();
        }
        r
    }

    fn element_entry(page: &HtmlPage, el: usize) -> (r: Option<Candidate>)
        ensures
            entry_of(r) == google_web_entry(page@, el),
    {
        let link = first_in(page, el, Selector::NameInClass, "yuRUbf", "a");
        let title = match link {
            Some(l) => trimmed_text(page, l),
            None => String::new(),
        };
        let url = match link {
            Some(l) => match attr_of(page, l, "href") {
                Some(h) => absolute_from_root_url(h.as_str(), "https://www.google.com"),
                None => String::new(),
            },
            None => String::new(),
        };
        let snippet = match first_in(page, el, Selector::Class, "IsZvec", "") {
            Some(s) => trimmed_text(page, s),
            None => String::new(),
        };
        if !title.as_str().is_empty() {
            Some(Candidate { title, url, snippet })
        } else {
            None
        }
    }

    fn candidates(page: &HtmlPage) -> (r: Vec<Option<Candidate>>)
        ensures
            entries(r@) == google_web_candidates(page@),
    {
        let nodes = find_all(page, Selector::Class, "tF2Cxc", "");
        let mut out: Vec<Option<Candidate>> = Vec::new();
        let mut i: usize = 0;
        while i < nodes.len()
            invariant
                i <= nodes@.len(),
                nodes@ == document_find(page@, Selector::Class, "tF2Cxc"@, Seq::empty()),
                entries(out@) == google_web_candidates(page@).subrange(0, i as int),
            decreases nodes.len() - i,
        {
            let c = Self::element_entry(page, nodes[i]);
            let ghost before = out@;
            out.push(c);
            assert(entries(out@) =~= entries(before).push(google_web_candidates(page@)[i as int]));
            i = i + 1;
            assert(entries(out@) =~= google_web_candidates(page@).subrange(0, i as int));
        }
        assert(google_web_candidates(page@).subrange(0, i as int) =~= google_web_candidates(page@));
        out
    }
}

impl BaseSearchParser for GoogleParser {
    closed spec fn label(&self) -> Seq<char> {
        "GoogleParser"@
    }

    closed spec fn engine(&self) -> SearchEngineType {
        SearchEngineType::Google
    }

    fn name(&self) -> (r: &str) {
        proof {
            use_type_invariant(self);
            self.base.lemma_view();
        }
        self.base.name()
    }

    fn engine_type(&self) -> (r: SearchEngineType) {
        proof {
            use_type_invariant(self);
            self.base.lemma_view();
        }
        self.base.engine_type()
    }
}

impl WebSearchParser for GoogleParser {
    open spec fn web_label(&self) -> Seq<char> {
        "GoogleParser"@
    }

    open spec fn web_engine(&self) -> SearchEngineType {
        SearchEngineType::Google
    }

    fn name(&self) -> (r: &str) {
        BaseSearchParser::name(self)
    }

    fn engine_type(&self) -> (r: SearchEngineType) {
        BaseSearchParser::engine_type(self)
    }

    fn supports(&self, engine_type: &SearchEngineType) -> (r: bool) {
        BaseSearchParser::supports(self, engine_type)
    }

    open spec fn html_outcome(&self, html: Seq<char>, limit: nat) -> Option<Seq<Hit>> {
        Some(google_web_results(html, limit))
    }

    fn parse_html(&self, html: &str, limit: usize) -> (r: Result<Vec<SearchResult>, TarziError>) {
        let page = HtmlPage::parse(html);
        let cands = Self::candidates(&page);
        Ok(positional_hits(cands, limit))
    }
}

impl SearchResultParser for GoogleParser {
    open spec fn parser_label(&self) -> Seq<char> {
        "GoogleParser"@
    }

    open spec fn handles(&self, engine_type: SearchEngineType) -> bool {
        same_engine(SearchEngineType::Google, engine_type)
    }

    open spec fn accepts(&self, content: Seq<char>) -> bool {
        true
    }

    open spec fn outcome(&self, content: Seq<char>, limit: nat) -> Option<Seq<Hit>> {
        Some(google_web_results(content, limit))
    }

    fn parse(&self, html: &str, limit: usize) -> (r: Result<Vec<SearchResult>, TarziError>) {
        WebSearchParser::parse_html(self, html, limit)
    }

    fn name(&self) -> (r: &str) {
        BaseSearchParser::name(self)
    }

    fn supports(&self, engine_type: &SearchEngineType) -> (r: bool) {
        BaseSearchParser::supports(self, engine_type)
    }
}

impl Default for GoogleParser {
    fn default() -> (r: GoogleParser)
        ensures
            r.label() == "GoogleParser"@,
    {
        GoogleParser::new()
    }
}

/// Google API parser (JSON-based): the `organic` list, with `title`, `link`
/// and `snippet` members, ranked from 0.
pub struct GoogleApiParser {
    base: BaseApiParser,
}

impl GoogleApiParser {
    #[verifier::type_invariant]
    closed spec fn well_formed(self) -> bool {
        self.base@ == ("GoogleApiParser"@, SearchEngineType::Google)
    }

    pub fn new() -> (r: GoogleApiParser)
        ensures
            r.label() == "GoogleApiParser"@,
            r.engine() == SearchEngineType::Google,
    {
        let r = GoogleApiParser {
            base: BaseApiParser::new(str_to_string("GoogleApiParser"), SearchEngineType::Google),
        };
        proof {
            r.base.lemma_view();
        }
        r
    }
}

impl BaseSearchParser for GoogleApiParser {
    closed spec fn label(&self) -> Seq<char> {
        "GoogleApiParser"@
    }

    closed spec fn engine(&self) -> SearchEngineType {
        SearchEngineType::Google
    }

    fn name(&self) -> (r: &str) {
        proof {
            use_type_invariant(self);
            self.base.lemma_view();
        }
        self.base.name()
    }

    fn engine_type(&self) -> (r: SearchEngineType) {
        proof {
            use_type_invariant(self);
            self.base.lemma_view();
        }
        self.base.engine_type()
    }
}

impl ApiSearchParser for GoogleApiParser {
    open spec fn api_label(&self) -> Seq<char> {
        "GoogleApiParser"@
    }

    open spec fn api_engine(&self) -> SearchEngineType {
        SearchEngineType::Google
    }

    fn name(&self) -> (r: &str) {
        BaseSearchParser::name(self)
    }

    fn engine_type(&self) -> (r: SearchEngineType) {
        BaseSearchParser::engine_type(self)
    }

    fn supports(&self, engine_type: &SearchEngineType) -> (r: bool) {
        BaseSearchParser::supports(self, engine_type)
    }

    open spec fn json_outcome(&self, content: Seq<char>, limit: nat) -> Option<Seq<Hit>> {
        api_outcome(content, "organic"@, "title"@, "link"@, "snippet"@, limit)
    }

    fn parse_json(&self, json_content: &str, limit: usize) -> (r: Result<Vec<SearchResult>, TarziError>) {
        parse_listed(json_content, "organic", "title", "link", "snippet", limit)
    }
}

impl SearchResultParser for GoogleApiParser {
    open spec fn parser_label(&self) -> Seq<char> {
        "GoogleApiParser"@
    }

    open spec fn handles(&self, engine_type: SearchEngineType) -> bool {
        same_engine(SearchEngineType::Google, engine_type)
    }

    open spec fn accepts(&self, content: Seq<char>) -> bool {
        true
    }

    open spec fn outcome(&self, content: Seq<char>, limit: nat) -> Option<Seq<Hit>> {
        api_outcome(content, "organic"@, "title"@, "link"@, "snippet"@, limit)
    }

    fn parse(&self, json_content: &str, limit: usize) -> (r: Result<Vec<SearchResult>, TarziError>) {
        ApiSearchParser::parse_json(self, json_content, limit)
    }

    fn name(&self) -> (r: &str) {
        BaseSearchParser::name(self)
    }

    fn supports(&self, engine_type: &SearchEngineType) -> (r: bool) {
        BaseSearchParser::supports(self, engine_type)
    }
}

impl Default for GoogleApiParser {
    fn default() -> (r: GoogleApiParser)
        ensures
            r.label() == "GoogleApiParser"@,
    {
        GoogleApiParser::new()
    }
}

/// Google Serper API parser (JSON-based): like the Google API parser, for
/// the Serper service.
pub struct GoogleSerperApiParser {
    base: BaseApiParser,
}

impl GoogleSerperApiParser {
    #[verifier::type_invariant]
    closed spec fn well_formed(self) -> bool {
        self.base@ == ("GoogleSerperApiParser"@, SearchEngineType::GoogleSerper)
    }

    pub fn new() -> (r: GoogleSerperApiParser)
        ensures
            r.label() == "GoogleSerperApiParser"@,
            r.engine() == SearchEngineType::GoogleSerper,
    {
        let r = GoogleSerperApiParser {
            base: BaseApiParser::new(str_to_string("GoogleSerperApiParser"), SearchEngineType::GoogleSerper),
        };
        proof {
            r.base.lemma_view();
        }
        r
    }
}

impl BaseSearchParser for GoogleSerperApiParser {
    closed spec fn label(&self) -> Seq<char> {
        "GoogleSerperApiParser"@
    }

    closed spec fn engine(&self) -> SearchEngineType {
        SearchEngineType::GoogleSerper
    }

    fn name(&self) -> (r: &str) {
        proof {
            use_type_invariant(self);
            self.base.lemma_view();
        }
        self.base.name()
    }

    fn engine_type(&self) -> (r: SearchEngineType) {
        proof {
            use_type_invariant(self);
            self.base.lemma_view();
        }
        self.base.engine_type()
    }
}

impl ApiSearchParser for GoogleSerperApiParser {
    open spec fn api_label(&self) -> Seq<char> {
        "GoogleSerperApiParser"@
    }

    open spec fn api_engine(&self) -> SearchEngineType {
        SearchEngineType::GoogleSerper
    }

    fn name(&self) -> (r: &str) {
        BaseSearchParser::name(self)
    }

    fn engine_type(&self) -> (r: SearchEngineType) {
        BaseSearchParser::engine_type(self)
    }

    fn supports(&self, engine_type: &SearchEngineType) -> (r: bool) {
        BaseSearchParser::supports(self, engine_type)
    }

    open spec fn json_outcome(&self, content: Seq<char>, limit: nat) -> Option<Seq<Hit>> {
        api_outcome(content, "organic"@, "title"@, "link"@, "snippet"@, limit)
    }

    fn parse_json(&self, json_content: &str, limit: usize) -> (r: Result<Vec<SearchResult>, TarziError>) {
        parse_listed(json_content, "organic", "title", "link", "snippet", limit)
    }
}

impl SearchResultParser for GoogleSerperApiParser {
    open spec fn parser_label(&self) -> Seq<char> {
        "GoogleSerperApiParser"@
    }

    open spec fn handles(&self, engine_type: SearchEngineType) -> bool {
        same_engine(SearchEngineType::GoogleSerper, engine_type)
    }

    open spec fn accepts(&self, content: Seq<char>) -> bool {
        true
    }

    open spec fn outcome(&self, content: Seq<char>, limit: nat) -> Option<Seq<Hit>> {
        api_outcome(content, "organic"@, "title"@, "link"@, "snippet"@, limit)
    }

    fn parse(&self, json_content: &str, limit: usize) -> (r: Result<Vec<SearchResult>, TarziError>) {
        ApiSearchParser::parse_json(self, json_content, limit)
    }

    fn name(&self) -> (r: &str) {
        BaseSearchParser::name(self)
    }

    fn supports(&self, engine_type: &SearchEngineType) -> (r: bool) {
        BaseSearchParser::supports(self, engine_type)
    }
}

impl Default for GoogleSerperApiParser {
    fn default() -> (r: GoogleSerperApiParser)
        ensures
            r.label() == "GoogleSerperApiParser"@,
    {
        GoogleSerperApiParser::new()
    }
}

} // verus!
