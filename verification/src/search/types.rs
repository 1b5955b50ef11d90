//! Search engine kinds and the search result record.
use vstd::prelude::*;
use crate::constants::{
    BAIDU_QUERY_PATTERN, BING_QUERY_PATTERN, BRAVE_QUERY_PATTERN, DUCKDUCKGO_QUERY_PATTERN,
    EXA_QUERY_PATTERN, GOOGLE_QUERY_PATTERN, SEARCH_ENGINE_BAIDU, SEARCH_ENGINE_BING,
    SEARCH_ENGINE_BRAVE, SEARCH_ENGINE_DUCKDUCKGO, SEARCH_ENGINE_EXA, SEARCH_ENGINE_GOOGLE,
    SEARCH_ENGINE_SOUGOU_WEIXIN, SOUGOU_WEIXIN_QUERY_PATTERN,
};
use crate::error::TarziError;
use crate::text::{all_ascii, ascii_lower, str_eq, str_to_string, to_lowercase, unicode_lowercase};

verus! {

#[derive(Debug, Clone, Copy, PartialEq, Eq, Hash, Structural)]
pub enum SearchEngineType {
    Bing,
    DuckDuckGo,
    Google,
    BraveSearch,
    Baidu,
    SougouWeixin,
    Exa,
}

/// The engine named by an already lower-cased name.
pub open spec fn engine_named(lower: Seq<char>) -> Option<SearchEngineType> {
    if lower == SEARCH_ENGINE_BING@ {
        Some(SearchEngineType::Bing)
    } else if lower == SEARCH_ENGINE_DUCKDUCKGO@ {
        Some(SearchEngineType::DuckDuckGo)
    } else if lower == SEARCH_ENGINE_GOOGLE@ {
        Some(SearchEngineType::Google)
    } else if lower == SEARCH_ENGINE_BRAVE@ {
        Some(SearchEngineType::BraveSearch)
    } else if lower == SEARCH_ENGINE_BAIDU@ {
        Some(SearchEngineType::Baidu)
    } else if lower == SEARCH_ENGINE_SOUGOU_WEIXIN@ {
        Some(SearchEngineType::SougouWeixin)
    } else if lower == SEARCH_ENGINE_EXA@ {
        Some(SearchEngineType::Exa)
    } else {
        None
    }
}

/// The query pattern of each engine.
pub open spec fn query_pattern_of(e: SearchEngineType) -> Seq<char> {
    match e {
        SearchEngineType::Bing => BING_QUERY_PATTERN@,
        SearchEngineType::DuckDuckGo => DUCKDUCKGO_QUERY_PATTERN@,
        SearchEngineType::Google => GOOGLE_QUERY_PATTERN@,
        SearchEngineType::BraveSearch => BRAVE_QUERY_PATTERN@,
        SearchEngineType::Baidu => BAIDU_QUERY_PATTERN@,
        SearchEngineType::SougouWeixin => SOUGOU_WEIXIN_QUERY_PATTERN@,
        SearchEngineType::Exa => EXA_QUERY_PATTERN@,
    }
}

impl SearchEngineType {
    /// Parses an engine name, ignoring case. Unknown names are an
    /// `InvalidEngine` error that carries the name as given.
    pub fn parse(s: &str) -> (r: Result<SearchEngineType, TarziError>)
        ensures
            match engine_named(unicode_lowercase(s@)) {
                Some(e) => r == Ok::<SearchEngineType, TarziError>(e),
                None => r matches Err(TarziError::InvalidEngine(m)) && m@ == s@,
            },
            all_ascii(s@) ==> unicode_lowercase(s@) == s@.map_values(|c: char| ascii_lower(c)),
    {
        let lower = to_lowercase(s);
        let l = lower.as_str();
        if str_eq(l, SEARCH_ENGINE_BING) {
            Ok(SearchEngineType::Bing)
        } else if str_eq(l, SEARCH_ENGINE_DUCKDUCKGO) {
            Ok(SearchEngineType::DuckDuckGo)
        } else if str_eq(l, SEARCH_ENGINE_GOOGLE) {
            Ok(SearchEngineType::Google)
        } else if str_eq(l, SEARCH_ENGINE_BRAVE) {
            Ok(SearchEngineType::BraveSearch)
        } else if str_eq(l, SEARCH_ENGINE_BAIDU) {
            Ok(SearchEngineType::Baidu)
        } else if str_eq(l, SEARCH_ENGINE_SOUGOU_WEIXIN) {
            Ok(SearchEngineType::SougouWeixin)
        } else if str_eq(l, SEARCH_ENGINE_EXA) {
            Ok(SearchEngineType::Exa)
        } else {
            Err(TarziError::InvalidEngine(str_to_string(s)))
        }
    }

    /// The engine's query pattern, with `{query}` where the query goes.
    pub fn get_query_pattern(&self) -> (r: String)
        ensures
            r@ == query_pattern_of(*self),
    {
        match self {
            SearchEngineType::Bing => str_to_string(BING_QUERY_PATTERN),
            SearchEngineType::DuckDuckGo => str_to_string(DUCKDUCKGO_QUERY_PATTERN),
            SearchEngineType::Google => str_to_string(GOOGLE_QUERY_PATTERN),
            SearchEngineType::BraveSearch => str_to_string(BRAVE_QUERY_PATTERN),
            SearchEngineType::Baidu => str_to_string(BAIDU_QUERY_PATTERN),
            SearchEngineType::SougouWeixin => str_to_string(SOUGOU_WEIXIN_QUERY_PATTERN),
            SearchEngineType::Exa => str_to_string(EXA_QUERY_PATTERN),
        }
    }
}

impl std::str::FromStr for SearchEngineType {
    type Err = TarziError;

    fn from_str(s: &str) -> (r: Result<Self, Self::Err>)
        ensures
            match engine_named(unicode_lowercase(s@)) {
                Some(e) => r == Ok::<SearchEngineType, TarziError>(e),
                None => r matches Err(TarziError::InvalidEngine(m)) && m@ == s@,
            },
            all_ascii(s@) ==> unicode_lowercase(s@) == s@.map_values(|c: char| ascii_lower(c)),
    {
        SearchEngineType::parse(s)
    }
}

/// A search result as the parsers produce it; `rank` counts from 1 for web
/// parsers.
#[derive(Debug, Clone)]
pub struct SearchResult {
    pub title: String,
    pub url: String,
    pub snippet: String,
    pub rank: usize,
}

/// The abstract content of a search result.
pub struct Hit {
    pub title: Seq<char>,
    pub url: Seq<char>,
    pub snippet: Seq<char>,
    pub rank: nat,
}

impl View for SearchResult {
    type V = Hit;

    open spec fn view(&self) -> Hit {
        Hit { title: self.title@, url: self.url@, snippet: self.snippet@, rank: self.rank as nat }
    }
}

/// The abstract content of a list of results.
pub open spec fn hits(v: Seq<SearchResult>) -> Seq<Hit> {
    v.map_values(|r: SearchResult| r@)
}

impl SearchResult {
    pub fn new(title: String, url: String, snippet: String, rank: usize) -> (r: SearchResult)
        ensures
            r@ == (Hit { title: title@, url: url@, snippet: snippet@, rank: rank as nat }),
    {
        SearchResult { title, url, snippet, rank }
    }
}

} // verus!
