//! Constants used throughout the library: endpoints, timeouts, default
//! configuration values, engine names and query patterns.
use vstd::prelude::*;

verus! {

/// Default WebDriver URL for legacy compatibility.
pub const WEBDRIVER_LEGACY_DEFAULT_URL: &'static str = "http://localhost:4444";

/// Default ChromeDriver URL.
pub const CHROMEDRIVER_DEFAULT_URL: &'static str = "http://localhost:9515";

/// Default ChromeDriver port.
pub const CHROMEDRIVER_DEFAULT_PORT: u16 = 9515;

/// Default GeckoDriver port.
pub const GECKODRIVER_DEFAULT_PORT: u16 = 4444;

/// Default HTTP client user agent.
pub const DEFAULT_USER_AGENT: &'static str = "Mozilla/5.0 (Windows NT 10.0; Win64; x64) AppleWebKit/537.36 (KHTML, like Gecko) Chrome/122.0.0.0 Safari/537.36";

/// Default timeout in seconds for various operations.
pub const DEFAULT_TIMEOUT_SECS: u64 = 30;

/// WebDriver availability check timeout in seconds.
pub const WEBDRIVER_CHECK_TIMEOUT_SECS: u64 = 2;

/// Browser launch timeout in seconds.
pub const BROWSER_LAUNCH_TIMEOUT_SECS: u64 = 60;

/// Page load wait time in seconds.
pub const PAGE_LOAD_WAIT_SECS: u64 = 2;

/// HTTPBin HTML test endpoint.
pub const HTTPBIN_HTML_URL: &'static str = "https://httpbin.org/html";

/// HTTPBin JSON test endpoint.
pub const HTTPBIN_JSON_URL: &'static str = "https://httpbin.org/json";

/// HTTPBin XML test endpoint.
pub const HTTPBIN_XML_URL: &'static str = "https://httpbin.org/xml";

/// HTTPBin 404 status test endpoint.
pub const HTTPBIN_404_URL: &'static str = "https://httpbin.org/status/404";

/// HTTPBin 500 status test endpoint.
pub const HTTPBIN_500_URL: &'static str = "https://httpbin.org/status/500";

/// HTTPBin large response test endpoint (10KB).
pub const HTTPBIN_LARGE_URL: &'static str = "https://httpbin.org/bytes/10000";

/// Example domain for testing.
pub const EXAMPLE_URL: &'static str = "https://example.com";

/// Example proxy URL for testing.
pub const EXAMPLE_PROXY_URL: &'static str = "http://example.com:8080";

/// Default log level.
pub const DEFAULT_LOG_LEVEL: &'static str = "info";

/// Default search limit.
pub const DEFAULT_SEARCH_LIMIT: usize = 5;

/// Default fetcher mode string.
pub const DEFAULT_FETCHER_MODE: &'static str = "browser_headless";

/// Default converter format string.
pub const DEFAULT_FORMAT: &'static str = "markdown";

/// Default search engine.
pub const DEFAULT_SEARCH_ENGINE: &'static str = "bing";

/// Default search mode.
pub const DEFAULT_SEARCH_MODE: &'static str = "webquery";

/// Default query pattern of the configuration.
pub const DEFAULT_QUERY_PATTERN: &'static str = "https://www.bing.com/search?q={query}";

/// Fetcher mode names.
pub const FETCHER_MODE_PLAIN_REQUEST: &'static str = "plain_request";

pub const FETCHER_MODE_HEAD: &'static str = "head";

pub const FETCHER_MODE_BROWSER_HEADLESS: &'static str = "browser_headless";

/// Search engine names, as accepted in configuration.
pub const SEARCH_ENGINE_BING: &'static str = "bing";

pub const SEARCH_ENGINE_DUCKDUCKGO: &'static str = "duckduckgo";

pub const SEARCH_ENGINE_GOOGLE: &'static str = "google";

pub const SEARCH_ENGINE_BRAVE: &'static str = "brave";

pub const SEARCH_ENGINE_BAIDU: &'static str = "baidu";

pub const SEARCH_ENGINE_SOUGOU_WEIXIN: &'static str = "sogou_weixin";

pub const SEARCH_ENGINE_EXA: &'static str = "exa";

/// Query patterns of the web search engines; `{query}` stands for the
/// encoded query.
pub const BING_QUERY_PATTERN: &'static str = "https://www.bing.com/search?q={query}";

pub const DUCKDUCKGO_QUERY_PATTERN: &'static str = "https://duckduckgo.com/?q={query}";

pub const GOOGLE_QUERY_PATTERN: &'static str = "https://www.google.com/search?q={query}";

pub const BRAVE_QUERY_PATTERN: &'static str = "https://search.brave.com/search?q={query}";

pub const BAIDU_QUERY_PATTERN: &'static str = "https://www.baidu.com/s?wd={query}";

pub const SOUGOU_WEIXIN_QUERY_PATTERN: &'static str = "https://weixin.sogou.com/weixin?type=2&query={query}";

pub const EXA_QUERY_PATTERN: &'static str = "https://exa.ai/search?q={query}";

} // verus!
