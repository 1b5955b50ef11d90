//! The configuration: general, fetcher and search settings with their
//! defaults, and the choice of a proxy. Reading and writing the file is done
//! by the application.
use vstd::prelude::*;
use std::path::PathBuf;
use crate::constants::DEFAULT_USER_AGENT;
use crate::text::str_to_string;

verus! {

#[verifier::external_type_specification]
#[verifier::external_body]
pub struct ExPathBuf(PathBuf);

/// The name of the path `PathBuf::from` makes of a text.
pub uninterp spec fn path_from_text(text: Seq<char>) -> PathBuf;

/// Calls `PathBuf::from`; claimed: the result is `path_from_text`.
#[verifier::external_body]
fn path_buf_from(text: &str) -> (r: PathBuf)
    ensures
        r == path_from_text(text@),
{
    PathBuf::from(text)
}

#[derive(Debug, Clone)]
pub struct GeneralConfig {
    pub log_level: String,
    pub timeout: u64,
}

#[derive(Debug, Clone)]
pub struct FetcherConfig {
    pub mode: String,
    pub format: String,
    pub user_agent: String,
    pub timeout: u64,
    pub proxy: Option<String>,
    pub web_driver: String,
    pub web_driver_url: Option<String>,
}

#[derive(Debug, Clone)]
pub struct SearchConfig {
    pub mode: String,
    pub engine: String,
    pub query_pattern: String,
    pub limit: usize,
    pub autoswitch: String,
    pub api_key: Option<String>,
    pub brave_api_key: Option<String>,
    pub duckduckgo_api_key: Option<String>,
    pub google_serper_api_key: Option<String>,
    pub exa_api_key: Option<String>,
    pub travily_api_key: Option<String>,
}

#[derive(Debug, Clone)]
pub struct Config {
    pub general: GeneralConfig,
    pub fetcher: FetcherConfig,
    pub search: SearchConfig,
}

/// The default general settings.
pub open spec fn default_general(g: GeneralConfig) -> bool {
    g.log_level@ == "info"@ && g.timeout == 30
}

/// The default fetcher settings.
pub open spec fn default_fetcher(f: FetcherConfig) -> bool {
    &&& f.mode@ == "browser_headless"@
    &&& f.format@ == "markdown"@
    &&& f.user_agent@ == DEFAULT_USER_AGENT@
    &&& f.timeout == 30
    &&& f.proxy is None
    &&& f.web_driver@ == "geckodriver"@
    &&& f.web_driver_url is None
}

/// The default search settings.
pub open spec fn default_search(s: SearchConfig) -> bool {
    &&& s.mode@ == "webquery"@
    &&& s.engine@ == "bing"@
    &&& s.query_pattern@ == "https://www.bing.com/search?q={query}"@
    &&& s.limit == 5
    &&& s.autoswitch@ == "smart"@
    &&& s.api_key is None
    &&& s.brave_api_key is None
    &&& s.duckduckgo_api_key is None
    &&& s.google_serper_api_key is None
    &&& s.exa_api_key is None
    &&& s.travily_api_key is None
}

impl Default for GeneralConfig {
    fn default() -> (r: GeneralConfig)
        ensures
            default_general(r),
    {
        GeneralConfig { log_level: str_to_string("info"), timeout: 30 }
    }
}

impl Default for FetcherConfig {
    fn default() -> (r: FetcherConfig)
        ensures
            default_fetcher(r),
    {
        FetcherConfig {
            mode: str_to_string("browser_headless"),
            format: str_to_string("markdown"),
            user_agent: str_to_string(DEFAULT_USER_AGENT),
            timeout: 30,
            proxy: None,
            web_driver: str_to_string("geckodriver"),
            web_driver_url: None,
        }
    }
}

impl Default for SearchConfig {
    fn default() -> (r: SearchConfig)
        ensures
            default_search(r),
    {
        SearchConfig {
            mode: str_to_string("webquery"),
            engine: str_to_string("bing"),
            query_pattern: str_to_string("https://www.bing.com/search?q={query}"),
            limit: 5,
            autoswitch: str_to_string("smart"),
            api_key: None,
            brave_api_key: None,
            duckduckgo_api_key: None,
            google_serper_api_key: None,
            exa_api_key: None,
            travily_api_key: None,
        }
    }
}

impl Config {
    /// The configuration with every setting at its default.
    pub fn new() -> (r: Config)
        ensures
            default_general(r.general),
            default_fetcher(r.fetcher),
            default_search(r.search),
    {
        Config {
            general: GeneralConfig::default(),
            fetcher: FetcherConfig::default(),
            search: SearchConfig::default(),
        }
    }

    /// The path of the development configuration file, `tarzi.toml`.
    pub fn get_dev_config_path() -> (r: PathBuf)
        ensures
            r == path_from_text("tarzi.toml"@),
    {
        path_buf_from("tarzi.toml")
    }
}

impl Default for Config {
    fn default() -> (r: Config)
        ensures
            default_general(r.general),
            default_fetcher(r.fetcher),
            default_search(r.search),
    {
        Config::new()
    }
}

/// The proxy variables, in the order they are consulted.
pub open spec fn proxy_variables() -> Seq<Seq<char>> {
    seq!["HTTPS_PROXY"@, "HTTP_PROXY"@, "https_proxy"@, "http_proxy"@]
}

/// The first set, non-empty value among the proxy variables' values (given
/// in the order of `proxy_variables`), else the configured proxy.
pub open spec fn chosen_proxy(env: Seq<Option<Seq<char>>>, config_proxy: Option<Seq<char>>) -> Option<Seq<char>>
    decreases env.len(),
{
    if env.len() == 0 {
        config_proxy
    } else {
        match env[0] {
            Some(v) => if v.len() > 0 {
                Some(v)
            } else {
                chosen_proxy(env.drop_first(), config_proxy)
            },
            None => chosen_proxy(env.drop_first(), config_proxy),
        }
    }
}

pub open spec fn option_view(o: Option<String>) -> Option<Seq<char>> {
    match o {
        Some(s) => Some(s@),
        None => None,
    }
}

pub open spec fn option_views(v: Seq<Option<String>>) -> Seq<Option<Seq<char>>> {
    v.map_values(|o: Option<String>| option_view(o))
}

/// The names of the proxy variables, in the order they are consulted.
pub fn proxy_variable_names() -> (r: Vec<&'static str>)
    ensures
        r@.map_values(|s: &str| s@) == proxy_variables(),
{
    let r = vec!["HTTPS_PROXY", "HTTP_PROXY", "https_proxy", "http_proxy"];
    assert(r@.map_values(|s: &str| s@) =~= proxy_variables());
    r
}

/// Chooses the proxy: the first proxy variable that is set and not empty,
/// else the configured proxy. `env` holds the variables' values in the order
/// of `proxy_variable_names`.
pub fn select_proxy(env: &Vec<Option<String>>, config_proxy: &Option<String>) -> (r: Option<String>)
    ensures
        option_view(r) == chosen_proxy(option_views(env@), option_view(*config_proxy)),
{
    let ghost all = option_views(env@);
    let mut i: usize = 0;
    assert(all.subrange(0, all.len() as int) =~= all);
    while i < env.len()
        invariant
            i <= env@.len(),
            all == option_views(env@),
            chosen_proxy(all, option_view(*config_proxy)) == chosen_proxy(
                all.subrange(i as int, all.len() as int),
                option_view(*config_proxy),
            ),
        decreases env.len() - i,
    {
        let ghost rest = all.subrange(i as int, all.len() as int);
        assert(rest.drop_first() =~= all.subrange(i + 1, all.len() as int));
        assert(rest[0] == option_view(env@[i as int]));
        match &env[i] {
            Some(v) => {
                if !v.as_str().is_empty() {
                    return Some(v.clone());
                }
            },
            None => {},
        }
        i = i + 1;
    }
    assert(all.subrange(i as int, all.len() as int) =~= Seq::<Option<Seq<char>>>::empty());
    match config_proxy {
        Some(p) => Some(p.clone()),
        None => None,
    }
}

} // verus!
