//! The Exa API parser (shared with the unified parsers), offered to the web
//! parser interface: its content is Exa's JSON response.
use vstd::prelude::*;
use crate::search::parser::parse_outcome;
use crate::error::TarziError;
use crate::parser::base::ApiSearchParser;
use crate::search::parser::base::BaseParser;
use crate::search::types::{SearchEngineType, SearchResult};
use crate::text::str_to_string;

pub use crate::parser::custom::ExaApiParser;

verus! {

impl BaseParser for ExaApiParser {
    open spec fn parser_name(&self) -> Seq<char> {
        "ExaApiParser"@
    }

    open spec fn parser_kind(&self) -> SearchEngineType {
        SearchEngineType::Exa
    }

    open spec fn gives(&self, html: Seq<char>, limit: nat, r: Result<Vec<SearchResult>, TarziError>) -> bool {
        parse_outcome(SearchEngineType::Exa, html, limit, r)
    }

    open spec fn parse_allowed(&self, html: Seq<char>) -> bool {
        true
    }

    fn name(&self) -> &str {
        ApiSearchParser::name(self)
    }

    fn engine_type(&self) -> SearchEngineType {
        SearchEngineType::Exa
    }

    fn parse(&self, html: &str, limit: usize) -> Result<Vec<SearchResult>, TarziError> {
        ApiSearchParser::parse_json(self, html, limit)
    }
}

} // verus!
