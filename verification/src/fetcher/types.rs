//! The three fetch modes of the fetcher configuration.
use vstd::prelude::*;
use crate::constants::{FETCHER_MODE_BROWSER_HEADLESS, FETCHER_MODE_HEAD, FETCHER_MODE_PLAIN_REQUEST};
use crate::error::TarziError;
use crate::text::{all_ascii, ascii_lower, str_eq, str_to_string, to_lowercase, unicode_lowercase};

verus! {

/// Different modes for fetching web content.
#[derive(Debug, Clone, Copy, PartialEq, Eq, Structural)]
pub enum FetchMode {
    /// Fetch content using plain HTTP request (no JavaScript rendering)
    PlainRequest,
    /// Fetch content using browser with visible window
    BrowserHead,
    /// Fetch content using browser in headless mode
    BrowserHeadless,
}

/// The fetch mode named by an already lower-cased name.
pub open spec fn config_mode_named(lower: Seq<char>) -> Option<FetchMode> {
    if lower == FETCHER_MODE_PLAIN_REQUEST@ || lower == "plain"@ {
        Some(FetchMode::PlainRequest)
    } else if lower == FETCHER_MODE_HEAD@ || lower == "browser_head"@ {
        Some(FetchMode::BrowserHead)
    } else if lower == FETCHER_MODE_BROWSER_HEADLESS@ {
        Some(FetchMode::BrowserHeadless)
    } else {
        None
    }
}

impl FetchMode {
    /// Parses a mode name, ignoring case; an unknown name is an
    /// `InvalidMode` error that carries the name as given.
    pub fn parse(s: &str) -> (r: Result<FetchMode, TarziError>)
        ensures
            match config_mode_named(unicode_lowercase(s@)) {
                Some(m) => r == Ok::<FetchMode, TarziError>(m),
                None => r matches Err(TarziError::InvalidMode(m)) && m@ == s@,
            },
            all_ascii(s@) ==> unicode_lowercase(s@) == s@.map_values(|c: char| ascii_lower(c)),
    {
        let lower = to_lowercase(s);
        let l = lower.as_str();
        if str_eq(l, FETCHER_MODE_PLAIN_REQUEST) || str_eq(l, "plain") {
            Ok(FetchMode::PlainRequest)
        } else if str_eq(l, FETCHER_MODE_HEAD) || str_eq(l, "browser_head") {
            Ok(FetchMode::BrowserHead)
        } else if str_eq(l, FETCHER_MODE_BROWSER_HEADLESS) {
            Ok(FetchMode::BrowserHeadless)
        } else {
            Err(TarziError::InvalidMode(str_to_string(s)))
        }
    }

    /// The mode used to fetch the pages of search results: a plain request
    /// stays one, a browser mode becomes the headless browser.
    pub fn effective_for_results(self) -> (r: FetchMode)
        ensures
            r == (if self == FetchMode::PlainRequest { FetchMode::PlainRequest } else { FetchMode::BrowserHeadless }),
    {
        match self {
            FetchMode::PlainRequest => FetchMode::PlainRequest,
            _ => FetchMode::BrowserHeadless,
        }
    }
}

impl std::str::FromStr for FetchMode {
    type Err = TarziError;

    fn from_str(s: &str) -> (r: Result<FetchMode, TarziError>)
        ensures
            match config_mode_named(unicode_lowercase(s@)) {
                Some(m) => r == Ok::<FetchMode, TarziError>(m),
                None => r matches Err(TarziError::InvalidMode(m)) && m@ == s@,
            },
            all_ascii(s@) ==> unicode_lowercase(s@) == s@.map_values(|c: char| ascii_lower(c)),
    {
        FetchMode::parse(s)
    }
}

} // verus!
