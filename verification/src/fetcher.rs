//! Fetch modes and the web driver records; the fetching itself, which is
//! network and browser work, is done by the application around this library.
pub mod browser;
pub mod driver;
pub mod external;
pub mod page;
pub mod types;

use vstd::prelude::*;
use crate::error::TarziError;
use crate::text::{all_ascii, ascii_lower, str_eq, str_to_string, to_lowercase, unicode_lowercase};

verus! {

/// How web content is fetched.
#[derive(Debug, Clone, Copy, PartialEq, Eq, Structural)]
pub enum FetchMode {
    PlainRequest,
    BrowserHead,
    BrowserHeadless,
    BrowserHeadExternal,
}

/// The fetch mode named by an already lower-cased name.
pub open spec fn fetch_mode_named(lower: Seq<char>) -> Option<FetchMode> {
    if lower == "plain_request"@ || lower == "plain"@ {
        Some(FetchMode::PlainRequest)
    } else if lower == "browser_head"@ || lower == "head"@ {
        Some(FetchMode::BrowserHead)
    } else if lower == "browser_headless"@ || lower == "headless"@ {
        Some(FetchMode::BrowserHeadless)
    } else if lower == "browser_head_external"@ || lower == "external"@ {
        Some(FetchMode::BrowserHeadExternal)
    } else {
        None
    }
}

impl FetchMode {
    /// Parses a mode name, ignoring case; an unknown name is an
    /// `InvalidMode` error that carries the name as given.
    pub fn parse(s: &str) -> (r: Result<FetchMode, TarziError>)
        ensures
            match fetch_mode_named(unicode_lowercase(s@)) {
                Some(m) => r == Ok::<FetchMode, TarziError>(m),
                None => r matches Err(TarziError::InvalidMode(m)) && m@ == s@,
            },
            all_ascii(s@) ==> unicode_lowercase(s@) == s@.map_values(|c: char| ascii_lower(c)),
    {
        let lower = to_lowercase(s);
        let l = lower.as_str();
        if str_eq(l, "plain_request") || str_eq(l, "plain") {
            Ok(FetchMode::PlainRequest)
        } else if str_eq(l, "browser_head") || str_eq(l, "head") {
            Ok(FetchMode::BrowserHead)
        } else if str_eq(l, "browser_headless") || str_eq(l, "headless") {
            Ok(FetchMode::BrowserHeadless)
        } else if str_eq(l, "browser_head_external") || str_eq(l, "external") {
            Ok(FetchMode::BrowserHeadExternal)
        } else {
            Err(TarziError::InvalidMode(str_to_string(s)))
        }
    }

    /// The mode used to fetch the pages of search results: a plain request
    /// stays one, every browser mode becomes the headless browser.
    pub fn effective_for_results(self) -> (r: FetchMode)
        ensures
            r == (if self == FetchMode::PlainRequest { FetchMode::PlainRequest } else { FetchMode::BrowserHeadless }),
    {
        match self {
            FetchMode::PlainRequest => FetchMode::PlainRequest,
            _ => FetchMode::BrowserHeadless,
        }
    }
}

impl std::str::FromStr for FetchMode {
    type Err = TarziError;

    fn from_str(s: &str) -> (r: Result<FetchMode, TarziError>)
        ensures
            match fetch_mode_named(unicode_lowercase(s@)) {
                Some(m) => r == Ok::<FetchMode, TarziError>(m),
                None => r matches Err(TarziError::InvalidMode(m)) && m@ == s@,
            },
            all_ascii(s@) ==> unicode_lowercase(s@) == s@.map_values(|c: char| ascii_lower(c)),
    {
        FetchMode::parse(s)
    }
}

} // verus!
