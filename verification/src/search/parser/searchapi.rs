//! Placeholder parser for SearchApi: it produces numbered sample results.
use vstd::prelude::*;
use crate::error::TarziError;
use crate::parser::base::SearchResultParser;
use crate::parser::engines::SearchEngineType;
use crate::search::parser::tavily::{mock_hits, mock_results};
use crate::search::types::{hits, Hit, SearchResult};

verus! {

/// Placeholder parser for SearchApi.
pub struct SearchApiParser;

impl SearchApiParser {
    pub fn new() -> (r: SearchApiParser) {
        SearchApiParser
    }
}

impl SearchResultParser for SearchApiParser {
    open spec fn parser_label(&self) -> Seq<char> {
        "SearchApiParser"@
    }

    open spec fn handles(&self, engine_type: SearchEngineType) -> bool {
        engine_type is SearchApi
    }

    open spec fn accepts(&self, content: Seq<char>) -> bool {
        true
    }

    open spec fn outcome(&self, content: Seq<char>, limit: nat) -> Option<Seq<Hit>> {
        Some(mock_hits("SearchApi"@, "searchapi"@, limit))
    }

    fn parse(&self, _html: &str, limit: usize) -> (r: Result<Vec<SearchResult>, TarziError>) {
        Ok(mock_results("SearchApi", "searchapi", limit))
    }

    fn name(&self) -> (r: &str) {
        "SearchApiParser"
    }

    fn supports(&self, engine_type: &SearchEngineType) -> (r: bool) {
        match engine_type {
            SearchEngineType::SearchApi => true,
            _ => false,
        }
    }
}

impl Default for SearchApiParser {
    fn default() -> (r: SearchApiParser) {
        SearchApiParser::new()
    }
}

} // verus!
