//! Unified parsers: web (HTML) and API (JSON) parsers behind one interface,
//! for the built-in engines, API services and custom engines.
pub mod base;
pub mod custom;
pub mod engines;
pub mod google;

use vstd::prelude::*;
use crate::error::TarziError;
use crate::parser::base::{api_outcome, ApiSearchParser, BaseSearchParser, WebSearchParser};
use crate::parser::custom::{custom_mock_hits, selectors_of};
use crate::parser::engines::{is_custom_named, same_engine, SearchEngineType, SearchMode};
use crate::parser::google::google_web_results;
use crate::search::parser::baidu::{baidu_results, BaiduParser};
use crate::search::parser::bing::{bing_results, BingParser};
use crate::search::parser::brave::{brave_results, embedded_results, BraveParser, Scan};
use crate::search::parser::duckduckgo::{ddg_results, DuckDuckGoParser};
use crate::search::parser::searchapi::SearchApiParser;
use crate::search::parser::tavily::{mock_hits, TavilyParser};
use crate::search::types::{hits, Hit, SearchResult};
use crate::text::{has_prefix, str_starts_with, str_to_string, trim, trimmed};

pub use crate::parser::base::SearchResultParser;
pub use crate::parser::custom::{CustomParser, CustomParserConfig, ExaApiParser, TravilyApiParser};
pub use crate::parser::google::{GoogleApiParser, GoogleParser, GoogleSerperApiParser};

verus! {

/// Content that looks like JSON: after trimming, it starts with `{` or `[`.
pub open spec fn looks_like_json(content: Seq<char>) -> bool {
    has_prefix(trim(content), "{"@) || has_prefix(trim(content), "["@)
}

/// Unified parser that can handle both web and API queries: JSON-looking
/// content goes to the API parser when there is one, anything else to the
/// web parser. The two parsers are held by their own types, so that what a
/// caller passes in stays known to the caller's proof.
pub struct UnifiedParser<W: WebSearchParser, A: ApiSearchParser> {
    web_parser: Box<W>,
    api_parser: Option<Box<A>>,
}

/// The parser held in an optional box.
pub open spec fn unboxed<A>(p: Option<Box<A>>) -> Option<A> {
    match p {
        Some(a) => Some(*a),
        None => None,
    }
}

impl<W: WebSearchParser, A: ApiSearchParser> UnifiedParser<W, A> {
    /// The web parser.
    pub closed spec fn web(&self) -> W {
        *self.web_parser
    }

    /// The API parser, where there is one.
    pub closed spec fn api(&self) -> Option<A> {
        unboxed(self.api_parser)
    }

    /// A parser that reads HTML with `web_parser` and, where there is one,
    /// JSON with `api_parser`.
    pub fn new(web_parser: Box<W>, api_parser: Option<Box<A>>) -> (r: UnifiedParser<W, A>)
        ensures
            r.web() == *web_parser,
            r.api() == unboxed(api_parser),
    {
        UnifiedParser { web_parser, api_parser }
    }
}

impl<W: WebSearchParser> UnifiedParser<W, DummyWebParser> {
    /// A parser that reads everything with `web_parser`.
    pub fn web_only(web_parser: Box<W>) -> (r: UnifiedParser<W, DummyWebParser>)
        ensures
            r.web() == *web_parser,
            r.api() is None,
    {
        UnifiedParser { web_parser, api_parser: None }
    }
}

impl<A: ApiSearchParser> UnifiedParser<DummyWebParser, A> {
    /// An API-only parser; web content gets a placeholder web parser that
    /// finds nothing.
    pub fn api_only(api_parser: Box<A>) -> (r: UnifiedParser<DummyWebParser, A>)
        ensures
            r.api() == Some(*api_parser),
            r.web().web_label() == "DummyWebParser"@,
            is_custom_named(r.web().web_engine(), "dummy"@),
            forall|c: Seq<char>, l: nat| #[trigger] r.web().html_outcome(c, l) == Some(Seq::<Hit>::empty()),
    {
        let d = DummyWebParser::new();
        UnifiedParser { web_parser: Box::new(d), api_parser: Some(api_parser) }
    }
}

impl<W: WebSearchParser, A: ApiSearchParser> SearchResultParser for UnifiedParser<W, A> {
    /// The web parser's name.
    open spec fn parser_label(&self) -> Seq<char> {
        self.web().web_label()
    }

    /// The web parser's engine, or the API parser's.
    open spec fn handles(&self, engine_type: SearchEngineType) -> bool {
        same_engine(self.web().web_engine(), engine_type) || (self.api() matches Some(a) && same_engine(
            a.api_engine(),
            engine_type,
        ))
    }

    open spec fn accepts(&self, content: Seq<char>) -> bool {
        true
    }

    /// What the API parser reads from JSON-looking content when there is an
    /// API parser, else what the web parser reads.
    open spec fn outcome(&self, content: Seq<char>, limit: nat) -> Option<Seq<Hit>> {
        if looks_like_json(content) && self.api() is Some {
            self.api()->0.json_outcome(content, limit)
        } else {
            self.web().html_outcome(content, limit)
        }
    }

    fn parse(&self, content: &str, limit: usize) -> (r: Result<Vec<SearchResult>, TarziError>) {
        let t = trimmed(content);
        if str_starts_with(t.as_str(), "{") || str_starts_with(t.as_str(), "[") {
            match &self.api_parser {
                Some(p) => p.parse_json(content, limit),
                None => self.web_parser.parse_html(content, limit),
            }
        } else {
            self.web_parser.parse_html(content, limit)
        }
    }

    fn name(&self) -> (r: &str) {
        self.web_parser.name()
    }

    fn supports(&self, engine_type: &SearchEngineType) -> (r: bool) {
        if self.web_parser.supports(engine_type) {
            return true;
        }
        match &self.api_parser {
            Some(p) => p.supports(engine_type),
            None => false,
        }
    }
}

/// Placeholder parser of API-only engines: it finds nothing. It also
/// stands, never called, for the missing API parser of a web-only parser.
pub struct DummyWebParser {
    name: String,
    engine_type: SearchEngineType,
}

impl DummyWebParser {
    #[verifier::type_invariant]
    closed spec fn well_formed(self) -> bool {
        self.name@ == "DummyWebParser"@ && is_custom_named(self.engine_type, "dummy"@)
    }

    fn new() -> (r: DummyWebParser)
        ensures
            r.name@ == "DummyWebParser"@,
            is_custom_named(r.engine_type, "dummy"@),
    {
        DummyWebParser { name: str_to_string("DummyWebParser"), engine_type: SearchEngineType::custom("dummy") }
    }
}

impl BaseSearchParser for DummyWebParser {
    open spec fn label(&self) -> Seq<char> {
        "DummyWebParser"@
    }

    closed spec fn engine(&self) -> SearchEngineType {
        self.engine_type
    }

    fn name(&self) -> (r: &str) {
        proof {
            use_type_invariant(self);
        }
        self.name.as_str()
    }

    fn engine_type(&self) -> (r: SearchEngineType) {
        proof {
            use_type_invariant(self);
        }
        self.engine_type.cloned()
    }
}

impl WebSearchParser for DummyWebParser {
    open spec fn web_label(&self) -> Seq<char> {
        "DummyWebParser"@
    }

    closed spec fn web_engine(&self) -> SearchEngineType {
        self.engine_type
    }

    fn name(&self) -> (r: &str) {
        BaseSearchParser::name(self)
    }

    fn engine_type(&self) -> (r: SearchEngineType) {
        BaseSearchParser::engine_type(self)
    }

    fn supports(&self, engine_type: &SearchEngineType) -> (r: bool) {
        BaseSearchParser::supports(self, engine_type)
    }

    open spec fn html_outcome(&self, html: Seq<char>, limit: nat) -> Option<Seq<Hit>> {
        Some(Seq::empty())
    }

    fn parse_html(&self, _html: &str, _limit: usize) -> (r: Result<Vec<SearchResult>, TarziError>) {
        let v: Vec<SearchResult> = Vec::new();
        assert(hits(v@) =~= Seq::<Hit>::empty());
        Ok(v)
    }
}

impl ApiSearchParser for DummyWebParser {
    open spec fn api_label(&self) -> Seq<char> {
        "DummyWebParser"@
    }

    closed spec fn api_engine(&self) -> SearchEngineType {
        self.engine_type
    }

    fn name(&self) -> (r: &str) {
        BaseSearchParser::name(self)
    }

    fn engine_type(&self) -> (r: SearchEngineType) {
        BaseSearchParser::engine_type(self)
    }

    fn supports(&self, engine_type: &SearchEngineType) -> (r: bool) {
        BaseSearchParser::supports(self, engine_type)
    }

    open spec fn json_outcome(&self, content: Seq<char>, limit: nat) -> Option<Seq<Hit>> {
        Some(Seq::empty())
    }

    fn parse_json(&self, _json_content: &str, _limit: usize) -> (r: Result<Vec<SearchResult>, TarziError>) {
        let v: Vec<SearchResult> = Vec::new();
        assert(hits(v@) =~= Seq::<Hit>::empty());
        Ok(v)
    }
}

} // verus!

verus! {

impl SearchResultParser for BingParser {
    open spec fn parser_label(&self) -> Seq<char> {
        self@.0
    }

    open spec fn handles(&self, engine_type: SearchEngineType) -> bool {
        engine_type is Bing
    }

    open spec fn accepts(&self, content: Seq<char>) -> bool {
        true
    }

    open spec fn outcome(&self, content: Seq<char>, limit: nat) -> Option<Seq<Hit>> {
        Some(bing_results(content, limit))
    }

    fn parse(&self, html: &str, limit: usize) -> (r: Result<Vec<SearchResult>, TarziError>) {
        BingParser::parse(self, html, limit)
    }

    fn name(&self) -> (r: &str) {
        BingParser::name(self)
    }

    fn supports(&self, engine_type: &SearchEngineType) -> (r: bool) {
        match engine_type {
            SearchEngineType::Bing => true,
            _ => false,
        }
    }
}

impl SearchResultParser for DuckDuckGoParser {
    open spec fn parser_label(&self) -> Seq<char> {
        self@.0
    }

    open spec fn handles(&self, engine_type: SearchEngineType) -> bool {
        engine_type is DuckDuckGo
    }

    open spec fn accepts(&self, content: Seq<char>) -> bool {
        true
    }

    open spec fn outcome(&self, content: Seq<char>, limit: nat) -> Option<Seq<Hit>> {
        Some(ddg_results(content, limit))
    }

    fn parse(&self, html: &str, limit: usize) -> (r: Result<Vec<SearchResult>, TarziError>) {
        DuckDuckGoParser::parse(self, html, limit)
    }

    fn name(&self) -> (r: &str) {
        DuckDuckGoParser::name(self)
    }

    fn supports(&self, engine_type: &SearchEngineType) -> (r: bool) {
        match engine_type {
            SearchEngineType::DuckDuckGo => true,
            _ => false,
        }
    }
}

impl SearchResultParser for BaiduParser {
    open spec fn parser_label(&self) -> Seq<char> {
        self@.0
    }

    open spec fn handles(&self, engine_type: SearchEngineType) -> bool {
        engine_type is Baidu
    }

    open spec fn accepts(&self, content: Seq<char>) -> bool {
        true
    }

    open spec fn outcome(&self, content: Seq<char>, limit: nat) -> Option<Seq<Hit>> {
        Some(baidu_results(content, limit))
    }

    fn parse(&self, html: &str, limit: usize) -> (r: Result<Vec<SearchResult>, TarziError>) {
        BaiduParser::parse(self, html, limit)
    }

    fn name(&self) -> (r: &str) {
        BaiduParser::name(self)
    }

    fn supports(&self, engine_type: &SearchEngineType) -> (r: bool) {
        match engine_type {
            SearchEngineType::Baidu => true,
            _ => false,
        }
    }
}

impl SearchResultParser for BraveParser {
    open spec fn parser_label(&self) -> Seq<char> {
        self@.0
    }

    open spec fn handles(&self, engine_type: SearchEngineType) -> bool {
        engine_type is BraveSearch
    }

    open spec fn accepts(&self, content: Seq<char>) -> bool {
        !(embedded_results(content) is Panics)
    }

    open spec fn outcome(&self, content: Seq<char>, limit: nat) -> Option<Seq<Hit>> {
        Some(brave_results(content, limit))
    }

    fn parse(&self, html: &str, limit: usize) -> (r: Result<Vec<SearchResult>, TarziError>) {
        BraveParser::parse(self, html, limit)
    }

    fn name(&self) -> (r: &str) {
        BraveParser::name(self)
    }

    fn supports(&self, engine_type: &SearchEngineType) -> (r: bool) {
        match engine_type {
            SearchEngineType::BraveSearch => true,
            _ => false,
        }
    }
}

/// Which parser the factory hands out.
pub enum ParserChoice {
    Bing,
    DuckDuckGo,
    Google,
    Brave,
    Baidu,
    GoogleApi,
    GoogleSerperApi,
    ExaApi,
    TravilyApi,
    Tavily,
    SearchApi,
    /// A custom parser of this name with the default configuration.
    Custom(Seq<char>),
}

/// The parser for an engine and a mode. API-only services get a named
/// custom parser for web queries, and engines without an API parser get one
/// for API queries.
pub open spec fn choice_for(e: SearchEngineType, m: SearchMode) -> ParserChoice {
    match e {
        SearchEngineType::Bing => match m {
            SearchMode::WebQuery => ParserChoice::Bing,
            SearchMode::ApiQuery => ParserChoice::Custom("BingApiFallback"@),
        },
        SearchEngineType::DuckDuckGo => match m {
            SearchMode::WebQuery => ParserChoice::DuckDuckGo,
            SearchMode::ApiQuery => ParserChoice::Custom("DuckDuckGoApiFallback"@),
        },
        SearchEngineType::Google => match m {
            SearchMode::WebQuery => ParserChoice::Google,
            SearchMode::ApiQuery => ParserChoice::GoogleApi,
        },
        SearchEngineType::BraveSearch => match m {
            SearchMode::WebQuery => ParserChoice::Brave,
            SearchMode::ApiQuery => ParserChoice::Custom("BraveApiFallback"@),
        },
        SearchEngineType::Baidu => match m {
            SearchMode::WebQuery => ParserChoice::Baidu,
            SearchMode::ApiQuery => ParserChoice::Custom("BaiduApiFallback"@),
        },
        SearchEngineType::Exa => match m {
            SearchMode::WebQuery => ParserChoice::Custom("ExaWebFallback"@),
            SearchMode::ApiQuery => ParserChoice::ExaApi,
        },
        SearchEngineType::Travily => match m {
            SearchMode::WebQuery => ParserChoice::Custom("TravilyWebFallback"@),
            SearchMode::ApiQuery => ParserChoice::TravilyApi,
        },
        SearchEngineType::GoogleSerper => match m {
            SearchMode::WebQuery => ParserChoice::Custom("GoogleSerperWebFallback"@),
            SearchMode::ApiQuery => ParserChoice::GoogleSerperApi,
        },
        SearchEngineType::Tavily => ParserChoice::Tavily,
        SearchEngineType::SearchApi => ParserChoice::SearchApi,
        SearchEngineType::Custom(n) => ParserChoice::Custom(n@),
    }
}

/// The name of the chosen parser.
pub open spec fn choice_label(c: ParserChoice) -> Seq<char> {
    match c {
        ParserChoice::Bing => "BingParser"@,
        ParserChoice::DuckDuckGo => "DuckDuckGoParser"@,
        ParserChoice::Google => "GoogleParser"@,
        ParserChoice::Brave => "BraveParser"@,
        ParserChoice::Baidu => "BaiduParser"@,
        ParserChoice::GoogleApi => "GoogleApiParser"@,
        ParserChoice::GoogleSerperApi => "GoogleSerperApiParser"@,
        ParserChoice::ExaApi => "ExaApiParser"@,
        ParserChoice::TravilyApi => "TravilyApiParser"@,
        ParserChoice::Tavily => "TavilyParser"@,
        ParserChoice::SearchApi => "SearchApiParser"@,
        ParserChoice::Custom(n) => n,
    }
}

/// The default selectors of a custom parser.
pub open spec fn default_selectors() -> (Seq<char>, Seq<char>, Seq<char>, Seq<char>) {
    (".result"@, "h3 a"@, "cite"@, ".snippet"@)
}

/// What the chosen parser reads from some content.
pub open spec fn choice_outcome(c: ParserChoice, content: Seq<char>, limit: nat) -> Option<Seq<Hit>> {
    match c {
        ParserChoice::Bing => Some(bing_results(content, limit)),
        ParserChoice::DuckDuckGo => Some(ddg_results(content, limit)),
        ParserChoice::Google => Some(google_web_results(content, limit)),
        ParserChoice::Brave => Some(brave_results(content, limit)),
        ParserChoice::Baidu => Some(baidu_results(content, limit)),
        ParserChoice::GoogleApi => api_outcome(content, "organic"@, "title"@, "link"@, "snippet"@, limit),
        ParserChoice::GoogleSerperApi => api_outcome(content, "organic"@, "title"@, "link"@, "snippet"@, limit),
        ParserChoice::ExaApi => api_outcome(content, "results"@, "title"@, "url"@, "text"@, limit),
        ParserChoice::TravilyApi => api_outcome(content, "results"@, "title"@, "url"@, "content"@, limit),
        ParserChoice::Tavily => Some(mock_hits("Tavily"@, "tavily"@, limit)),
        ParserChoice::SearchApi => Some(mock_hits("SearchApi"@, "searchapi"@, limit)),
        ParserChoice::Custom(n) => Some(custom_mock_hits(n, default_selectors(), limit)),
    }
}

/// The engines the chosen parser handles.
pub open spec fn choice_handles(c: ParserChoice, e: SearchEngineType) -> bool {
    match c {
        ParserChoice::Bing => e is Bing,
        ParserChoice::DuckDuckGo => e is DuckDuckGo,
        ParserChoice::Google => same_engine(SearchEngineType::Google, e),
        ParserChoice::Brave => e is BraveSearch,
        ParserChoice::Baidu => e is Baidu,
        ParserChoice::GoogleApi => same_engine(SearchEngineType::Google, e),
        ParserChoice::GoogleSerperApi => same_engine(SearchEngineType::GoogleSerper, e),
        ParserChoice::ExaApi => same_engine(SearchEngineType::Exa, e),
        ParserChoice::TravilyApi => same_engine(SearchEngineType::Travily, e),
        ParserChoice::Tavily => e is Tavily,
        ParserChoice::SearchApi => e is SearchApi,
        ParserChoice::Custom(n) => is_custom_named(e, n),
    }
}

/// Whether the chosen parser runs to completion on some content.
pub open spec fn choice_accepts(c: ParserChoice, content: Seq<char>) -> bool {
    match c {
        ParserChoice::Brave => !(embedded_results(content) is Panics),
        _ => true,
    }
}

/// A parser handed out by the factory.
pub enum SelectedParser {
    Bing(BingParser),
    DuckDuckGo(DuckDuckGoParser),
    Google(GoogleParser),
    Brave(BraveParser),
    Baidu(BaiduParser),
    GoogleApi(GoogleApiParser),
    GoogleSerperApi(GoogleSerperApiParser),
    ExaApi(ExaApiParser),
    TravilyApi(TravilyApiParser),
    Tavily(TavilyParser),
    SearchApi(SearchApiParser),
    Custom(CustomParser),
}

impl SearchResultParser for SelectedParser {
    open spec fn parser_label(&self) -> Seq<char> {
        match self {
            SelectedParser::Bing(p) => p.parser_label(),
            SelectedParser::DuckDuckGo(p) => p.parser_label(),
            SelectedParser::Google(p) => p.parser_label(),
            SelectedParser::Brave(p) => p.parser_label(),
            SelectedParser::Baidu(p) => p.parser_label(),
            SelectedParser::GoogleApi(p) => p.parser_label(),
            SelectedParser::GoogleSerperApi(p) => p.parser_label(),
            SelectedParser::ExaApi(p) => p.parser_label(),
            SelectedParser::TravilyApi(p) => p.parser_label(),
            SelectedParser::Tavily(p) => p.parser_label(),
            SelectedParser::SearchApi(p) => p.parser_label(),
            SelectedParser::Custom(p) => p.parser_label(),
        }
    }

    open spec fn handles(&self, engine_type: SearchEngineType) -> bool {
        match self {
            SelectedParser::Bing(p) => p.handles(engine_type),
            SelectedParser::DuckDuckGo(p) => p.handles(engine_type),
            SelectedParser::Google(p) => p.handles(engine_type),
            SelectedParser::Brave(p) => p.handles(engine_type),
            SelectedParser::Baidu(p) => p.handles(engine_type),
            SelectedParser::GoogleApi(p) => p.handles(engine_type),
            SelectedParser::GoogleSerperApi(p) => p.handles(engine_type),
            SelectedParser::ExaApi(p) => p.handles(engine_type),
            SelectedParser::TravilyApi(p) => p.handles(engine_type),
            SelectedParser::Tavily(p) => p.handles(engine_type),
            SelectedParser::SearchApi(p) => p.handles(engine_type),
            SelectedParser::Custom(p) => p.handles(engine_type),
        }
    }

    open spec fn accepts(&self, content: Seq<char>) -> bool {
        match self {
            SelectedParser::Bing(p) => p.accepts(content),
            SelectedParser::DuckDuckGo(p) => p.accepts(content),
            SelectedParser::Google(p) => p.accepts(content),
            SelectedParser::Brave(p) => p.accepts(content),
            SelectedParser::Baidu(p) => p.accepts(content),
            SelectedParser::GoogleApi(p) => p.accepts(content),
            SelectedParser::GoogleSerperApi(p) => p.accepts(content),
            SelectedParser::ExaApi(p) => p.accepts(content),
            SelectedParser::TravilyApi(p) => p.accepts(content),
            SelectedParser::Tavily(p) => p.accepts(content),
            SelectedParser::SearchApi(p) => p.accepts(content),
            SelectedParser::Custom(p) => p.accepts(content),
        }
    }

    open spec fn outcome(&self, content: Seq<char>, limit: nat) -> Option<Seq<Hit>> {
        match self {
            SelectedParser::Bing(p) => p.outcome(content, limit),
            SelectedParser::DuckDuckGo(p) => p.outcome(content, limit),
            SelectedParser::Google(p) => p.outcome(content, limit),
            SelectedParser::Brave(p) => p.outcome(content, limit),
            SelectedParser::Baidu(p) => p.outcome(content, limit),
            SelectedParser::GoogleApi(p) => p.outcome(content, limit),
            SelectedParser::GoogleSerperApi(p) => p.outcome(content, limit),
            SelectedParser::ExaApi(p) => p.outcome(content, limit),
            SelectedParser::TravilyApi(p) => p.outcome(content, limit),
            SelectedParser::Tavily(p) => p.outcome(content, limit),
            SelectedParser::SearchApi(p) => p.outcome(content, limit),
            SelectedParser::Custom(p) => p.outcome(content, limit),
        }
    }

    fn parse(&self, content: &str, limit: usize) -> (r: Result<Vec<SearchResult>, TarziError>) {
        match self {
            SelectedParser::Bing(p) => SearchResultParser::parse(p, content, limit),
            SelectedParser::DuckDuckGo(p) => SearchResultParser::parse(p, content, limit),
            SelectedParser::Google(p) => SearchResultParser::parse(p, content, limit),
            SelectedParser::Brave(p) => SearchResultParser::parse(p, content, limit),
            SelectedParser::Baidu(p) => SearchResultParser::parse(p, content, limit),
            SelectedParser::GoogleApi(p) => SearchResultParser::parse(p, content, limit),
            SelectedParser::GoogleSerperApi(p) => SearchResultParser::parse(p, content, limit),
            SelectedParser::ExaApi(p) => SearchResultParser::parse(p, content, limit),
            SelectedParser::TravilyApi(p) => SearchResultParser::parse(p, content, limit),
            SelectedParser::Tavily(p) => SearchResultParser::parse(p, content, limit),
            SelectedParser::SearchApi(p) => SearchResultParser::parse(p, content, limit),
            SelectedParser::Custom(p) => SearchResultParser::parse(p, content, limit),
        }
    }

    fn name(&self) -> (r: &str) {
        match self {
            SelectedParser::Bing(p) => SearchResultParser::name(p),
            SelectedParser::DuckDuckGo(p) => SearchResultParser::name(p),
            SelectedParser::Google(p) => SearchResultParser::name(p),
            SelectedParser::Brave(p) => SearchResultParser::name(p),
            SelectedParser::Baidu(p) => SearchResultParser::name(p),
            SelectedParser::GoogleApi(p) => SearchResultParser::name(p),
            SelectedParser::GoogleSerperApi(p) => SearchResultParser::name(p),
            SelectedParser::ExaApi(p) => SearchResultParser::name(p),
            SelectedParser::TravilyApi(p) => SearchResultParser::name(p),
            SelectedParser::Tavily(p) => SearchResultParser::name(p),
            SelectedParser::SearchApi(p) => SearchResultParser::name(p),
            SelectedParser::Custom(p) => SearchResultParser::name(p),
        }
    }

    fn supports(&self, engine_type: &SearchEngineType) -> (r: bool) {
        match self {
            SelectedParser::Bing(p) => SearchResultParser::supports(p, engine_type),
            SelectedParser::DuckDuckGo(p) => SearchResultParser::supports(p, engine_type),
            SelectedParser::Google(p) => SearchResultParser::supports(p, engine_type),
            SelectedParser::Brave(p) => SearchResultParser::supports(p, engine_type),
            SelectedParser::Baidu(p) => SearchResultParser::supports(p, engine_type),
            SelectedParser::GoogleApi(p) => SearchResultParser::supports(p, engine_type),
            SelectedParser::GoogleSerperApi(p) => SearchResultParser::supports(p, engine_type),
            SelectedParser::ExaApi(p) => SearchResultParser::supports(p, engine_type),
            SelectedParser::TravilyApi(p) => SearchResultParser::supports(p, engine_type),
            SelectedParser::Tavily(p) => SearchResultParser::supports(p, engine_type),
            SelectedParser::SearchApi(p) => SearchResultParser::supports(p, engine_type),
            SelectedParser::Custom(p) => SearchResultParser::supports(p, engine_type),
        }
    }
}

/// The names of registered custom parsers.
pub open spec fn names_of(v: Seq<String>) -> Set<Seq<char>> {
    Set::new(|n: Seq<char>| exists|i: int| 0 <= i < v.len() && #[trigger] v[i]@ == n)
}

/// Factory for creating parsers based on search engine type and mode; custom
/// parsers can be registered by name.
pub struct ParserFactory {
    custom_names: Vec<String>,
    custom_parsers: Vec<Box<dyn SearchResultParser>>,
}

impl ParserFactory {
    /// The names of the registered custom parsers.
    pub closed spec fn registered(&self) -> Set<Seq<char>> {
        names_of(self.custom_names@)
    }

    pub fn new() -> (r: ParserFactory)
        ensures
            r.registered() == Set::<Seq<char>>::empty(),
    {
        let r = ParserFactory { custom_names: Vec::new(), custom_parsers: Vec::new() };
        assert(r.registered() =~= Set::<Seq<char>>::empty());
        r
    }

    /// Puts a parser in place of the one at position `i`, if there is one.
    fn replace_parser(&mut self, i: usize, parser: Box<dyn SearchResultParser>)
        ensures
            final(self).custom_names == old(self).custom_names,
            final(self).custom_parsers@ == (if i < old(self).custom_parsers@.len() {
                old(self).custom_parsers@.update(i as int, parser)
            } else {
                old(self).custom_parsers@
            }),
    {
        if i < self.custom_parsers.len() {
            self.custom_parsers.set(i, parser);
        }
    }

    /// Register a custom parser, replacing one registered under the same name.
    pub fn register_custom_parser(&mut self, name: String, parser: Box<dyn SearchResultParser>)
        ensures
            final(self).registered() == old(self).registered().insert(name@),
    {
        let ghost before = self.custom_names@;
        let mut i: usize = 0;
        while i < self.custom_names.len()
            invariant
                i <= self.custom_names@.len(),
                self.custom_names@ == before,
                before == old(self).custom_names@,
                forall|j: int| 0 <= j < i ==> #[trigger] before[j]@ != name@,
            decreases self.custom_names.len() - i,
        {
            if crate::text::str_eq(self.custom_names[i].as_str(), name.as_str()) {
                assert(names_of(self.custom_names@) =~= names_of(before).insert(name@)) by {
                    assert(before[i as int]@ == name@);
                    assert(names_of(before).contains(name@));
                }
                self.replace_parser(i, parser);
                return;
            }
            i = i + 1;
        }
        let ghost key = name@;
        self.custom_names.push(name);
        self.custom_parsers.push(parser);
        let ghost after = self.custom_names@;
        assert(names_of(after) =~= names_of(before).insert(key)) by {
            assert forall|n: Seq<char>| #[trigger] names_of(after).contains(n) implies names_of(before).insert(key).contains(n) by {
                assert(exists|k: int| 0 <= k < after.len() && #[trigger] after[k]@ == n);
                let k = choose|k: int| 0 <= k < after.len() && #[trigger] after[k]@ == n;
                if k < before.len() {
                    assert(before[k]@ == n);
                    assert(names_of(before).contains(n));
                }
            }
            assert forall|n: Seq<char>| #[trigger] names_of(before).insert(key).contains(n) implies names_of(after).contains(n) by {
                if n != key {
                    assert(exists|k: int| 0 <= k < before.len() && #[trigger] before[k]@ == n);
                    let k = choose|k: int| 0 <= k < before.len() && #[trigger] before[k]@ == n;
                    assert(after[k]@ == n);
                } else {
                    assert(after[before.len() as int]@ == n);
                }
            }
        }
    }

    /// Get a parser for the given search engine type and mode. A custom
    /// engine gets a custom parser of its name, registered or not.
    ///
    /// DuckDuckGo, Brave and Baidu have no JSON parser in this crate: in API
    /// mode they get custom parsers named `DuckDuckGoApiFallback`,
    /// `BraveApiFallback` and `BaiduApiFallback`, as Bing gets
    /// `BingApiFallback` and the API-only engines get a `...WebFallback`
    /// parser in web mode.
    pub fn get_parser(&self, engine_type: &SearchEngineType, mode: SearchMode) -> (r: SelectedParser)
        ensures
            r.parser_label() == choice_label(choice_for(*engine_type, mode)),
            forall|e: SearchEngineType| #[trigger] r.handles(e) == choice_handles(choice_for(*engine_type, mode), e),
            forall|c: Seq<char>| #[trigger] r.accepts(c) == choice_accepts(choice_for(*engine_type, mode), c),
            forall|c: Seq<char>, l: nat| #[trigger] r.outcome(c, l) == choice_outcome(choice_for(*engine_type, mode), c, l),
    {
        match engine_type {
            SearchEngineType::Bing => match mode {
                SearchMode::WebQuery => SelectedParser::Bing(BingParser::new()),
                SearchMode::ApiQuery => SelectedParser::Custom(CustomParser::new(str_to_string("BingApiFallback"))),
            },
            SearchEngineType::DuckDuckGo => match mode {
                SearchMode::WebQuery => SelectedParser::DuckDuckGo(DuckDuckGoParser::new()),
                SearchMode::ApiQuery => SelectedParser::Custom(CustomParser::new(str_to_string("DuckDuckGoApiFallback"))),
            },
            SearchEngineType::Google => match mode {
                SearchMode::WebQuery => SelectedParser::Google(GoogleParser::new()),
                SearchMode::ApiQuery => SelectedParser::GoogleApi(GoogleApiParser::new()),
            },
            SearchEngineType::BraveSearch => match mode {
                SearchMode::WebQuery => SelectedParser::Brave(BraveParser::new()),
                SearchMode::ApiQuery => SelectedParser::Custom(CustomParser::new(str_to_string("BraveApiFallback"))),
            },
            SearchEngineType::Baidu => match mode {
                SearchMode::WebQuery => SelectedParser::Baidu(BaiduParser::new()),
                SearchMode::ApiQuery => SelectedParser::Custom(CustomParser::new(str_to_string("BaiduApiFallback"))),
            },
            SearchEngineType::Exa => match mode {
                SearchMode::WebQuery => SelectedParser::Custom(CustomParser::new(str_to_string("ExaWebFallback"))),
                SearchMode::ApiQuery => SelectedParser::ExaApi(ExaApiParser::new()),
            },
            SearchEngineType::Travily => match mode {
                SearchMode::WebQuery => SelectedParser::Custom(CustomParser::new(str_to_string("TravilyWebFallback"))),
                SearchMode::ApiQuery => SelectedParser::TravilyApi(TravilyApiParser::new()),
            },
            SearchEngineType::GoogleSerper => match mode {
                SearchMode::WebQuery => SelectedParser::Custom(CustomParser::new(str_to_string("GoogleSerperWebFallback"))),
                SearchMode::ApiQuery => SelectedParser::GoogleSerperApi(GoogleSerperApiParser::new()),
            },
            SearchEngineType::Tavily => SelectedParser::Tavily(TavilyParser::new()),
            SearchEngineType::SearchApi => SelectedParser::SearchApi(SearchApiParser::new()),
            SearchEngineType::Custom(name) => SelectedParser::Custom(CustomParser::new(name.clone())),
        }
    }

    /// Get a parser for the given search engine type in web query mode.
    pub fn get_parser_legacy(&self, engine_type: &SearchEngineType) -> (r: SelectedParser)
        ensures
            r.parser_label() == choice_label(choice_for(*engine_type, SearchMode::WebQuery)),
            forall|e: SearchEngineType| #[trigger] r.handles(e) == choice_handles(
                choice_for(*engine_type, SearchMode::WebQuery),
                e,
            ),
            forall|c: Seq<char>| #[trigger] r.accepts(c) == choice_accepts(choice_for(*engine_type, SearchMode::WebQuery), c),
            forall|c: Seq<char>, l: nat| #[trigger] r.outcome(c, l) == choice_outcome(choice_for(*engine_type, SearchMode::WebQuery), c, l),
    {
        self.get_parser(engine_type, SearchMode::WebQuery)
    }
}

impl Default for ParserFactory {
    fn default() -> (r: ParserFactory)
        ensures
            r.registered() == Set::<Seq<char>>::empty(),
    {
        ParserFactory::new()
    }
}

} // verus!
