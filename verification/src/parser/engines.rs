//! The engines the unified parsers know, custom engines among them, and the
//! two ways of querying an engine.
use vstd::prelude::*;
use crate::text::{str_eq, str_to_string};

verus! {

/// An engine a unified parser can serve: the built-in engines, the API-only
/// services, and custom engines known by name.
#[derive(Debug, Clone, PartialEq, Eq, Hash)]
pub enum SearchEngineType {
    Bing,
    DuckDuckGo,
    Google,
    BraveSearch,
    Baidu,
    Exa,
    Travily,
    GoogleSerper,
    Tavily,
    SearchApi,
    Custom(String),
}

/// Whether a query goes to an engine's web pages or to its API.
#[derive(Debug, Clone, Copy, PartialEq, Eq, Structural)]
pub enum SearchMode {
    WebQuery,
    ApiQuery,
}

/// Two engines are the same: the same built-in engine, or custom engines of
/// the same name.
pub open spec fn same_engine(a: SearchEngineType, b: SearchEngineType) -> bool {
    match (a, b) {
        (SearchEngineType::Custom(x), SearchEngineType::Custom(y)) => x@ == y@,
        (SearchEngineType::Custom(_), _) => false,
        (_, SearchEngineType::Custom(_)) => false,
        _ => a == b,
    }
}

/// The custom engine of this name.
pub open spec fn is_custom_named(e: SearchEngineType, name: Seq<char>) -> bool {
    e matches SearchEngineType::Custom(n) && n@ == name
}

impl SearchEngineType {
    /// A copy of this engine.
    pub fn cloned(&self) -> (r: SearchEngineType)
        ensures
            r == *self,
    {
        match self {
            SearchEngineType::Bing => SearchEngineType::Bing,
            SearchEngineType::DuckDuckGo => SearchEngineType::DuckDuckGo,
            SearchEngineType::Google => SearchEngineType::Google,
            SearchEngineType::BraveSearch => SearchEngineType::BraveSearch,
            SearchEngineType::Baidu => SearchEngineType::Baidu,
            SearchEngineType::Exa => SearchEngineType::Exa,
            SearchEngineType::Travily => SearchEngineType::Travily,
            SearchEngineType::GoogleSerper => SearchEngineType::GoogleSerper,
            SearchEngineType::Tavily => SearchEngineType::Tavily,
            SearchEngineType::SearchApi => SearchEngineType::SearchApi,
            SearchEngineType::Custom(n) => SearchEngineType::Custom(n.clone()),
        }
    }

    /// Whether two engines are the same (`==`).
    pub fn same_as(&self, other: &SearchEngineType) -> (r: bool)
        ensures
            r == same_engine(*self, *other),
    {
        match (self, other) {
            (SearchEngineType::Custom(x), SearchEngineType::Custom(y)) => str_eq(x.as_str(), y.as_str()),
            (SearchEngineType::Bing, SearchEngineType::Bing) => true,
            (SearchEngineType::DuckDuckGo, SearchEngineType::DuckDuckGo) => true,
            (SearchEngineType::Google, SearchEngineType::Google) => true,
            (SearchEngineType::BraveSearch, SearchEngineType::BraveSearch) => true,
            (SearchEngineType::Baidu, SearchEngineType::Baidu) => true,
            (SearchEngineType::Exa, SearchEngineType::Exa) => true,
            (SearchEngineType::Travily, SearchEngineType::Travily) => true,
            (SearchEngineType::GoogleSerper, SearchEngineType::GoogleSerper) => true,
            (SearchEngineType::Tavily, SearchEngineType::Tavily) => true,
            (SearchEngineType::SearchApi, SearchEngineType::SearchApi) => true,
            _ => false,
        }
    }

    /// The custom engine of a name.
    pub fn custom(name: &str) -> (r: SearchEngineType)
        ensures
            is_custom_named(r, name@),
    {
        SearchEngineType::Custom(str_to_string(name))
    }
}

} // verus!
