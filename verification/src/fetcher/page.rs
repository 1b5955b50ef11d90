//! Reading a page through a browser: navigate, wait for the page to load,
//! read its source. The application drives the browser; this module decides
//! the next step from what happened and words the errors, which differ for
//! the shared browser, a named browser instance and a browser made for a
//! proxy.
use vstd::prelude::*;
use crate::constants::PAGE_LOAD_WAIT_SECS;
use crate::error::TarziError;
use crate::text::{append_str, has_infix, str_contains, str_to_string, string_of};

verus! {

/// Which browser a page is read with.
#[derive(Debug, Clone, Copy, PartialEq, Eq, Structural)]
pub enum PageBrowser {
    /// The fetcher's shared browser.
    Shared,
    /// A browser instance named by the caller.
    Instance,
    /// A browser made for one proxied fetch.
    Proxy,
}

/// What happened at the last step.
pub enum PageEvent {
    /// Nothing yet.
    Begin,
    /// The browser reached the page.
    Navigated,
    /// Navigation failed with this message.
    NavigationFailed(String),
    /// Navigation did not finish in time.
    NavigationTimedOut,
    /// The wait for the page to load is over.
    Loaded,
    /// The page source was read.
    SourceRead(String),
    /// Reading the source failed with this message.
    SourceFailed(String),
    /// Reading the source did not finish in time.
    SourceTimedOut,
}

/// What to do next.
pub enum PageAction {
    /// Navigate to the page.
    Navigate,
    /// Wait this many seconds for the page to load.
    Wait(u64),
    /// Read the page source.
    ReadSource,
    /// The page's source.
    Done(String),
    /// Give up with this error.
    Fail(TarziError),
}

/// Whether a navigation message speaks of the network.
pub open spec fn network_message(m: Seq<char>) -> bool {
    has_infix(m, "nssFailure"@) || has_infix(m, "network"@)
}

/// The message for a failed navigation.
pub open spec fn navigation_failure(b: PageBrowser, url: Seq<char>, m: Seq<char>) -> Seq<char> {
    match b {
        PageBrowser::Shared => if network_message(m) {
            "Network error while navigating to "@ + url + ": "@ + m
                + ". This may be due to network connectivity issues, firewall restrictions, or the site being temporarily unavailable."@
        } else {
            "Failed to navigate to "@ + url + ": "@ + m
        },
        PageBrowser::Instance => "Failed to navigate: "@ + m,
        PageBrowser::Proxy => "Failed to navigate with proxy: "@ + m,
    }
}

/// The message for a navigation that took too long.
pub open spec fn navigation_timeout(b: PageBrowser, url: Seq<char>) -> Seq<char> {
    match b {
        PageBrowser::Shared => "Timeout while navigating to "@ + url
            + " (30 seconds). The page may be slow to load or the site may be experiencing issues."@,
        PageBrowser::Instance => "Timeout while navigating to URL"@,
        PageBrowser::Proxy => "Timeout while navigating with proxy"@,
    }
}

/// The message for a source that could not be read.
pub open spec fn source_failure(b: PageBrowser, m: Seq<char>) -> Seq<char> {
    match b {
        PageBrowser::Proxy => "Failed to get content with proxy: "@ + m,
        _ => "Failed to get content: "@ + m,
    }
}

/// The message for a source read that took too long.
pub open spec fn source_timeout(b: PageBrowser) -> Seq<char> {
    match b {
        PageBrowser::Proxy => "Timeout while extracting content with proxy"@,
        _ => "Timeout while extracting page content"@,
    }
}

/// A browser error with this message.
pub open spec fn browser_error(a: PageAction, m: Seq<char>) -> bool {
    a matches PageAction::Fail(TarziError::Browser(t)) && t@ == m
}

/// The next step in reading a page at `url`: navigate first, wait for the
/// page after a navigation, read the source after the wait, and hand the
/// source back; each failure and timeout ends in a browser error worded for
/// the browser used.
pub fn next_page_action(browser: PageBrowser, url: &str, event: &PageEvent) -> (r: PageAction)
    ensures
        match *event {
            PageEvent::Begin => r is Navigate,
            PageEvent::Navigated => r matches PageAction::Wait(s) && s == PAGE_LOAD_WAIT_SECS,
            PageEvent::NavigationFailed(m) => browser_error(r, navigation_failure(browser, url@, m@)),
            PageEvent::NavigationTimedOut => browser_error(r, navigation_timeout(browser, url@)),
            PageEvent::Loaded => r is ReadSource,
            PageEvent::SourceRead(c) => r matches PageAction::Done(d) && d@ == c@,
            PageEvent::SourceFailed(m) => browser_error(r, source_failure(browser, m@)),
            PageEvent::SourceTimedOut => browser_error(r, source_timeout(browser)),
        },
{
    match event {
        PageEvent::Begin => PageAction::Navigate,
        PageEvent::Navigated => PageAction::Wait(PAGE_LOAD_WAIT_SECS),
        PageEvent::Loaded => PageAction::ReadSource,
        PageEvent::SourceRead(c) => PageAction::Done(c.clone()),
        PageEvent::NavigationFailed(m) => {
            let text = match browser {
                PageBrowser::Shared => {
                    let mm = m.as_str();
                    if str_contains(mm, "nssFailure") || str_contains(mm, "network") {
                        let mut v: Vec<char> = Vec::new();
                        append_str(&mut v, "Network error while navigating to ");
                        append_str(&mut v, url);
                        append_str(&mut v, ": ");
                        append_str(&mut v, mm);
                        append_str(
                            &mut v,
                            ". This may be due to network connectivity issues, firewall restrictions, or the site being temporarily unavailable.",
                        );
                        string_of(v.as_slice())
                    } else {
                        let mut v: Vec<char> = Vec::new();
                        append_str(&mut v, "Failed to navigate to ");
                        append_str(&mut v, url);
                        append_str(&mut v, ": ");
                        append_str(&mut v, mm);
                        string_of(v.as_slice())
                    }
                },
                PageBrowser::Instance => {
                    let mut v: Vec<char> = Vec::new();
                    append_str(&mut v, "Failed to navigate: ");
                    append_str(&mut v, m.as_str());
                    string_of(v.as_slice())
                },
                PageBrowser::Proxy => {
                    let mut v: Vec<char> = Vec::new();
                    append_str(&mut v, "Failed to navigate with proxy: ");
                    append_str(&mut v, m.as_str());
                    string_of(v.as_slice())
                },
            };
            PageAction::Fail(TarziError::Browser(text))
        },
        PageEvent::NavigationTimedOut => {
            let text = match browser {
                PageBrowser::Shared => {
                    let mut v: Vec<char> = Vec::new();
                    append_str(&mut v, "Timeout while navigating to ");
                    append_str(&mut v, url);
                    append_str(
                        &mut v,
                        " (30 seconds). The page may be slow to load or the site may be experiencing issues.",
                    );
                    string_of(v.as_slice())
                },
                PageBrowser::Instance => str_to_string("Timeout while navigating to URL"),
                PageBrowser::Proxy => str_to_string("Timeout while navigating with proxy"),
            };
            PageAction::Fail(TarziError::Browser(text))
        },
        PageEvent::SourceFailed(m) => {
            let mut v: Vec<char> = Vec::new();
            match browser {
                PageBrowser::Proxy => append_str(&mut v, "Failed to get content with proxy: "),
                _ => append_str(&mut v, "Failed to get content: "),
            }
            append_str(&mut v, m.as_str());
            PageAction::Fail(TarziError::Browser(string_of(v.as_slice())))
        },
        PageEvent::SourceTimedOut => {
            let text = match browser {
                PageBrowser::Proxy => str_to_string("Timeout while extracting content with proxy"),
                _ => str_to_string("Timeout while extracting page content"),
            };
            PageAction::Fail(TarziError::Browser(text))
        },
    }
}

/// The error when the browser to read a page with is not there: a named
/// instance is named in it.
pub open spec fn missing_browser_message(b: PageBrowser, id: Seq<char>) -> Seq<char> {
    match b {
        PageBrowser::Proxy => "Failed to get proxy browser instance"@,
        _ => "Browser instance "@ + id + " not found"@,
    }
}

pub fn missing_browser_error(browser: PageBrowser, instance_id: &str) -> (r: TarziError)
    ensures
        r matches TarziError::Browser(m) && m@ == missing_browser_message(browser, instance_id@),
{
    match browser {
        PageBrowser::Proxy => TarziError::Browser(str_to_string("Failed to get proxy browser instance")),
        _ => {
            let mut v: Vec<char> = Vec::new();
            append_str(&mut v, "Browser instance ");
            append_str(&mut v, instance_id);
            append_str(&mut v, " not found");
            TarziError::Browser(string_of(v.as_slice()))
        },
    }
}

} // verus!
