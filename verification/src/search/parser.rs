pub mod baidu;
pub mod base;
pub mod bing;
pub mod brave;
pub mod brave_js;
pub mod brave_scan;
pub mod custom;
pub mod duckduckgo;
pub mod exa;
pub mod google;
pub mod searchapi;
pub mod sogou_weixin;
pub mod tavily;

use vstd::prelude::*;
use crate::error::TarziError;
use crate::parser::base::{api_outcome, ApiSearchParser};
use crate::search::parser::baidu::{baidu_results, BaiduParser};
use crate::search::parser::base::BaseParser;
use crate::search::parser::bing::{bing_results, BingParser};
use crate::search::parser::brave::{brave_results, embedded_results, BraveParser, Scan};
use crate::search::parser::duckduckgo::{ddg_results, DuckDuckGoParser};
use crate::search::parser::exa::ExaApiParser;
use crate::search::parser::google::{google_results, GoogleParser};
use crate::search::parser::sogou_weixin::{captcha_message, is_captcha_page, weixin_results, SogouWeixinParser};
use crate::search::types::{hits, SearchEngineType, SearchResult};
use crate::text::trim;

verus! {

/// A parser handed out by the factory, one kind per engine.
pub enum WebParser {
    Bing(BingParser),
    DuckDuckGo(DuckDuckGoParser),
    Google(GoogleParser),
    BraveSearch(BraveParser),
    Baidu(BaiduParser),
    SougouWeixin(SogouWeixinParser),
    Exa(ExaApiParser),
}

/// The name of each engine's parser.
pub open spec fn parser_name_of(e: SearchEngineType) -> Seq<char> {
    match e {
        SearchEngineType::Bing => "BingParser"@,
        SearchEngineType::DuckDuckGo => "DuckDuckGoParser"@,
        SearchEngineType::Google => "GoogleParser"@,
        SearchEngineType::BraveSearch => "BraveParser"@,
        SearchEngineType::Baidu => "BaiduParser"@,
        SearchEngineType::SougouWeixin => "SogouWeixinParser"@,
        SearchEngineType::Exa => "ExaApiParser"@,
    }
}

/// Whether the engine's parser runs to completion on a page.
pub open spec fn engine_allows(e: SearchEngineType, html: Seq<char>) -> bool {
    match e {
        SearchEngineType::BraveSearch => !(embedded_results(html) is Panics),
        _ => true,
    }
}

/// What the engine's parser gives for a page.
pub open spec fn parse_outcome(e: SearchEngineType, html: Seq<char>, limit: nat, r: Result<Vec<SearchResult>, TarziError>) -> bool {
    match e {
        SearchEngineType::Bing => r matches Ok(v) && hits(v@) == bing_results(html, limit),
        SearchEngineType::DuckDuckGo => r matches Ok(v) && hits(v@) == ddg_results(html, limit),
        SearchEngineType::Google => r matches Ok(v) && hits(v@) == google_results(html, limit),
        SearchEngineType::BraveSearch => r matches Ok(v) && hits(v@) == brave_results(html, limit),
        SearchEngineType::Baidu => r matches Ok(v) && hits(v@) == baidu_results(html, limit),
        SearchEngineType::SougouWeixin => if trim(html).len() == 0 || limit == 0 {
            r matches Ok(v) && v@.len() == 0
        } else if is_captcha_page(html) {
            r matches Err(TarziError::Search(m)) && m@ == captcha_message()
        } else {
            r matches Ok(v) && hits(v@) == weixin_results(html, limit)
        },
        SearchEngineType::Exa => match r {
            Ok(v) => api_outcome(html, "results"@, "title"@, "url"@, "text"@, limit) == Some(hits(v@)),
            Err(_) => api_outcome(html, "results"@, "title"@, "url"@, "text"@, limit) is None,
        },
    }
}

impl WebParser {
    /// The engine the parser is for.
    pub open spec fn engine(&self) -> SearchEngineType {
        match self {
            WebParser::Bing(_) => SearchEngineType::Bing,
            WebParser::DuckDuckGo(_) => SearchEngineType::DuckDuckGo,
            WebParser::Google(_) => SearchEngineType::Google,
            WebParser::BraveSearch(_) => SearchEngineType::BraveSearch,
            WebParser::Baidu(_) => SearchEngineType::Baidu,
            WebParser::SougouWeixin(_) => SearchEngineType::SougouWeixin,
            WebParser::Exa(_) => SearchEngineType::Exa,
        }
    }

    /// The parser's own record agrees with its kind.
    pub open spec fn well_formed(&self) -> bool {
        match self {
            WebParser::Bing(p) => p@ == ("BingParser"@, SearchEngineType::Bing),
            WebParser::DuckDuckGo(p) => p@ == ("DuckDuckGoParser"@, SearchEngineType::DuckDuckGo),
            WebParser::Google(p) => p@ == ("GoogleParser"@, SearchEngineType::Google),
            WebParser::BraveSearch(p) => p@ == ("BraveParser"@, SearchEngineType::BraveSearch),
            WebParser::Baidu(p) => p@ == ("BaiduParser"@, SearchEngineType::Baidu),
            WebParser::SougouWeixin(p) => p@ == ("SogouWeixinParser"@, SearchEngineType::SougouWeixin),
            WebParser::Exa(p) => ApiSearchParser::api_label(p) == "ExaApiParser"@,
        }
    }


    pub fn name(&self) -> (r: &str)
        requires
            self.well_formed(),
        ensures
            r@ == parser_name_of(self.engine()),
    {
        match self {
            WebParser::Bing(p) => p.name(),
            WebParser::DuckDuckGo(p) => p.name(),
            WebParser::Google(p) => p.name(),
            WebParser::BraveSearch(p) => p.name(),
            WebParser::Baidu(p) => p.name(),
            WebParser::SougouWeixin(p) => p.name(),
            WebParser::Exa(p) => ApiSearchParser::name(p),
        }
    }

    pub fn engine_type(&self) -> (r: SearchEngineType)
        ensures
            r == self.engine(),
    {
        match self {
            WebParser::Bing(_) => SearchEngineType::Bing,
            WebParser::DuckDuckGo(_) => SearchEngineType::DuckDuckGo,
            WebParser::Google(_) => SearchEngineType::Google,
            WebParser::BraveSearch(_) => SearchEngineType::BraveSearch,
            WebParser::Baidu(_) => SearchEngineType::Baidu,
            WebParser::SougouWeixin(_) => SearchEngineType::SougouWeixin,
            WebParser::Exa(_) => SearchEngineType::Exa,
        }
    }

    pub fn supports(&self, engine_type: &SearchEngineType) -> (r: bool)
        ensures
            r == (self.engine() == *engine_type),
    {
        self.engine_type() == *engine_type
    }

    /// Parses a page with the engine's parser.
    pub fn parse(&self, html: &str, limit: usize) -> (r: Result<Vec<SearchResult>, TarziError>)
        requires
            engine_allows(self.engine(), html@),
        ensures
            parse_outcome(self.engine(), html@, limit as nat, r),
    {
        match self {
            WebParser::Bing(p) => p.parse(html, limit),
            WebParser::DuckDuckGo(p) => p.parse(html, limit),
            WebParser::Google(p) => p.parse(html, limit),
            WebParser::BraveSearch(p) => p.parse(html, limit),
            WebParser::Baidu(p) => p.parse(html, limit),
            WebParser::SougouWeixin(p) => p.parse(html, limit),
            WebParser::Exa(p) => ApiSearchParser::parse_json(p, html, limit),
        }
    }
}

/// Factory for creating parsers based on search engine type.
pub struct ParserFactory;

impl ParserFactory {
    pub fn new() -> (r: ParserFactory) {
        ParserFactory
    }

    /// Get a parser for the given search engine type.
    pub fn get_parser(&self, engine_type: &SearchEngineType) -> (r: WebParser)
        ensures
            r.engine() == *engine_type,
            r.well_formed(),
    {
        match engine_type {
            SearchEngineType::Bing => WebParser::Bing(BingParser::new()),
            SearchEngineType::DuckDuckGo => WebParser::DuckDuckGo(DuckDuckGoParser::new()),
            SearchEngineType::Google => WebParser::Google(GoogleParser::new()),
            SearchEngineType::BraveSearch => WebParser::BraveSearch(BraveParser::new()),
            SearchEngineType::Baidu => WebParser::Baidu(BaiduParser::new()),
            SearchEngineType::SougouWeixin => WebParser::SougouWeixin(SogouWeixinParser::new()),
            SearchEngineType::Exa => WebParser::Exa(ExaApiParser::new()),
        }
    }
}

impl Default for ParserFactory {
    fn default() -> (r: ParserFactory) {
        ParserFactory::new()
    }
}

} // verus!
