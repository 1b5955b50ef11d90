//! The settings of a search engine and the decisions of its search flow:
//! which engine and query pattern a configuration gives, the address of a
//! query, which fetch errors are retried, and how a page becomes results.
//! Fetching is done by the application.
use vstd::prelude::*;
use crate::config::Config;
use crate::constants::{DEFAULT_QUERY_PATTERN, DEFAULT_USER_AGENT, DUCKDUCKGO_QUERY_PATTERN};
use crate::error::{message_prefix, payload, TarziError};
use crate::search::parser::{engine_allows, parse_outcome, ParserFactory, WebParser};
use crate::search::types::{engine_named, query_pattern_of, SearchEngineType, SearchResult};
use crate::text::{append_str, has_infix, replaced, str_contains, str_eq, str_replace, str_to_string, string_of, unicode_lowercase};
use crate::urls::{percent_encode, percent_encoded};

verus! {

/// What a search engine is set up with.
pub struct SearchSettings {
    pub engine_type: SearchEngineType,
    pub query_pattern: String,
    pub user_agent: String,
}

/// The engine a configuration names, DuckDuckGo when it names none.
pub open spec fn configured_engine(name: Seq<char>) -> SearchEngineType {
    match engine_named(unicode_lowercase(name)) {
        Some(e) => e,
        None => SearchEngineType::DuckDuckGo,
    }
}

/// The query pattern: the configured one when it differs from the default
/// pattern, else the engine's own.
pub open spec fn configured_pattern(pattern: Seq<char>, e: SearchEngineType) -> Seq<char> {
    if pattern != DEFAULT_QUERY_PATTERN@ {
        pattern
    } else {
        query_pattern_of(e)
    }
}

/// The address of a query: the pattern with each `{query}` replaced by the
/// percent-encoded query.
pub open spec fn search_address(pattern: Seq<char>, query: Seq<char>) -> Seq<char> {
    replaced(pattern, "{query}"@, percent_encoded(query))
}

impl SearchSettings {
    /// DuckDuckGo with its query pattern and the default user agent.
    pub fn new() -> (r: SearchSettings)
        ensures
            r.engine_type == SearchEngineType::DuckDuckGo,
            r.query_pattern@ == DUCKDUCKGO_QUERY_PATTERN@,
            r.user_agent@ == DEFAULT_USER_AGENT@,
    {
        SearchSettings {
            engine_type: SearchEngineType::DuckDuckGo,
            query_pattern: SearchEngineType::DuckDuckGo.get_query_pattern(),
            user_agent: str_to_string(DEFAULT_USER_AGENT),
        }
    }

    /// The settings a configuration gives.
    pub fn from_config(config: &Config) -> (r: SearchSettings)
        ensures
            r.engine_type == configured_engine(config.search.engine@),
            r.query_pattern@ == configured_pattern(config.search.query_pattern@, r.engine_type),
            r.user_agent@ == config.fetcher.user_agent@,
    {
        let engine_type = match SearchEngineType::parse(config.search.engine.as_str()) {
            Ok(e) => e,
            Err(_) => SearchEngineType::DuckDuckGo,
        };
        let query_pattern = if !str_eq(config.search.query_pattern.as_str(), DEFAULT_QUERY_PATTERN) {
            config.search.query_pattern.clone()
        } else {
            engine_type.get_query_pattern()
        };
        SearchSettings { engine_type, query_pattern, user_agent: config.fetcher.user_agent.clone() }
    }

    /// The address to fetch for a query.
    pub fn search_url(&self, query: &str) -> (r: String)
        ensures
            r@ == search_address(self.query_pattern@, query@),
    {
        let encoded = percent_encode(query);
        proof {
            reveal_strlit("{query}");
        }
        str_replace(self.query_pattern.as_str(), "{query}", encoded.as_str())
    }

    /// Reads the results from a result page with the engine's parser.
    pub fn extract_search_results_from_html(&self, html: &str, limit: usize) -> (r: Result<Vec<SearchResult>, TarziError>)
        requires
            engine_allows(self.engine_type, html@),
        ensures
            parse_outcome(self.engine_type, html@, limit as nat, r),
    {
        let factory = ParserFactory::new();
        let parser = factory.get_parser(&self.engine_type);
        parser.parse(html, limit)
    }
}

/// A fetch error that looks like a network problem, by its message.
pub open spec fn network_failure(message: Seq<char>) -> bool {
    has_infix(message, "nssFailure"@) || has_infix(message, "network"@) || has_infix(message, "timeout"@)
        || has_infix(message, "connection"@)
}

pub fn is_network_error(message: &str) -> (r: bool)
    ensures
        r == network_failure(message@),
{
    str_contains(message, "nssFailure") || str_contains(message, "network") || str_contains(message, "timeout")
        || str_contains(message, "connection")
}

/// How many times a page fetch is tried.
pub const MAX_RETRIES: usize = 3;

/// After a failed attempt (counted from 1), whether to try again: only for
/// network problems, and only while attempts are left.
pub fn should_retry(error: &TarziError, attempt: usize) -> (r: bool)
    ensures
        r == (network_failure(message_prefix(*error) + payload(*error)) && attempt < MAX_RETRIES),
{
    let message = error.to_string();
    is_network_error(message.as_str()) && attempt < MAX_RETRIES
}

/// The error reported when the browser could not fetch the result page.
pub fn browser_failure(error: &TarziError) -> (r: TarziError)
    ensures
        r matches TarziError::Search(m) && m@ == "Browser mode failed: "@ + message_prefix(*error) + payload(*error),
{
    let mut v: Vec<char> = Vec::new();
    append_str(&mut v, "Browser mode failed: ");
    let m = error.to_string();
    append_str(&mut v, m.as_str());
    TarziError::Search(string_of(v.as_slice()))
}

} // verus!
