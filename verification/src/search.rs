//! Web search: engine kinds, result parsers, the search settings and the
//! decisions of the search flow, and the API providers' response handling.
pub mod api;
pub mod engine;
pub mod parser;
pub mod types;

use vstd::prelude::*;
use crate::error::TarziError;
use crate::text::{all_ascii, ascii_lower, str_eq, str_to_string, to_lowercase, unicode_lowercase};

pub use crate::search::api::AutoSwitchStrategy;
pub use crate::search::parser::ParserFactory;
pub use crate::search::types::{SearchEngineType, SearchResult};

verus! {

/// Whether a search goes through a browser or an API.
#[derive(Debug, Clone, Copy, PartialEq, Eq, Structural)]
pub enum SearchMode {
    Browser,
    Api,
}

/// The search mode named by an already lower-cased name.
pub open spec fn search_mode_named(lower: Seq<char>) -> Option<SearchMode> {
    if lower == "browser"@ {
        Some(SearchMode::Browser)
    } else if lower == "api"@ {
        Some(SearchMode::Api)
    } else {
        None
    }
}

impl SearchMode {
    /// Parses a mode name, ignoring case; an unknown name is an
    /// `InvalidMode` error that carries the name as given.
    pub fn parse(s: &str) -> (r: Result<SearchMode, TarziError>)
        ensures
            match search_mode_named(unicode_lowercase(s@)) {
                Some(m) => r == Ok::<SearchMode, TarziError>(m),
                None => r matches Err(TarziError::InvalidMode(m)) && m@ == s@,
            },
            all_ascii(s@) ==> unicode_lowercase(s@) == s@.map_values(|c: char| ascii_lower(c)),
    {
        let lower = to_lowercase(s);
        if str_eq(lower.as_str(), "browser") {
            Ok(SearchMode::Browser)
        } else if str_eq(lower.as_str(), "api") {
            Ok(SearchMode::Api)
        } else {
            Err(TarziError::InvalidMode(str_to_string(s)))
        }
    }
}

impl std::str::FromStr for SearchMode {
    type Err = TarziError;

    fn from_str(s: &str) -> (r: Result<SearchMode, TarziError>)
        ensures
            match search_mode_named(unicode_lowercase(s@)) {
                Some(m) => r == Ok::<SearchMode, TarziError>(m),
                None => r matches Err(TarziError::InvalidMode(m)) && m@ == s@,
            },
            all_ascii(s@) ==> unicode_lowercase(s@) == s@.map_values(|c: char| ascii_lower(c)),
    {
        SearchMode::parse(s)
    }
}

} // verus!
