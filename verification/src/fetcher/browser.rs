//! The decisions the browser manager makes: the capability family a session
//! is configured with, the arguments a browser is launched with, where a web
//! driver is looked for, which drivers are started in which order, and how
//! browser instances are named. Launching browsers and probing drivers is
//! done by the application, which follows these decisions.
use vstd::prelude::*;
use crate::config::Config;
use crate::constants::{CHROMEDRIVER_DEFAULT_PORT, DEFAULT_TIMEOUT_SECS, GECKODRIVER_DEFAULT_PORT};
use crate::error::TarziError;
use crate::fetcher::driver::{duration_from_secs, seconds, string_views, DriverConfig, DriverType};
use crate::text::{append_str, decimal, decimal_text, str_eq, str_to_string, string_of};

verus! {

/// The capability family a browser session is configured with.
#[derive(Debug, Clone, Copy, PartialEq, Eq, Structural)]
pub enum BrowserKind {
    Chrome,
    Firefox,
}

impl BrowserKind {
    /// The family's name, as the capabilities are chosen by.
    pub fn name(&self) -> (r: &'static str)
        ensures
            r@ == match *self {
                BrowserKind::Chrome => "chrome"@,
                BrowserKind::Firefox => "firefox"@,
            },
    {
        match self {
            BrowserKind::Chrome => "chrome",
            BrowserKind::Firefox => "firefox",
        }
    }
}

/// A driver name that stands for Firefox.
pub open spec fn names_firefox(n: Seq<char>) -> bool {
    n == "geckodriver"@ || n == "firefox"@
}

/// A driver name that stands for Chrome.
pub open spec fn names_chrome(n: Seq<char>) -> bool {
    n == "chromedriver"@ || n == "chrome"@
}

/// The family a configuration asks for: Firefox for a Firefox driver name,
/// Chrome for any other name and when there is no configuration.
pub open spec fn configured_kind(config: Option<Config>) -> BrowserKind {
    match config {
        Some(c) => if names_firefox(c.fetcher.web_driver@) {
            BrowserKind::Firefox
        } else {
            BrowserKind::Chrome
        },
        None => BrowserKind::Chrome,
    }
}

/// Whether a configuration names a Firefox driver.
fn wants_firefox(config: Option<&Config>) -> (r: bool)
    ensures
        r == (config matches Some(c) && names_firefox(c.fetcher.web_driver@)),
{
    match config {
        Some(c) => {
            let w = c.fetcher.web_driver.as_str();
            str_eq(w, "geckodriver") || str_eq(w, "firefox")
        },
        None => false,
    }
}

/// Whether a configuration names a Chrome driver.
fn wants_chrome(config: Option<&Config>) -> (r: bool)
    ensures
        r == (config matches Some(c) && names_chrome(c.fetcher.web_driver@)),
{
    match config {
        Some(c) => {
            let w = c.fetcher.web_driver.as_str();
            str_eq(w, "chromedriver") || str_eq(w, "chrome")
        },
        None => false,
    }
}

/// The capability family for a driver found through the configuration.
pub fn capability_kind(config: Option<&Config>) -> (r: BrowserKind)
    ensures
        r == configured_kind(match config {
            Some(c) => Some(*c),
            None => None,
        }),
{
    if wants_firefox(config) {
        BrowserKind::Firefox
    } else {
        BrowserKind::Chrome
    }
}

/// The capability family of a driver the manager started itself: Firefox
/// for GeckoDriver, Chrome otherwise.
pub open spec fn started_kind(d: DriverType) -> BrowserKind {
    match d {
        DriverType::Firefox => BrowserKind::Firefox,
        _ => BrowserKind::Chrome,
    }
}

/// The capability family of a new session: that of the driver the manager
/// started, where it started one, else the one the configuration asks for.
pub fn session_kind(managed: Option<&DriverType>, config: Option<&Config>) -> (r: BrowserKind)
    ensures
        r == match managed {
            Some(d) => started_kind(*d),
            None => configured_kind(match config {
                Some(c) => Some(*c),
                None => None,
            }),
        },
{
    match managed {
        Some(DriverType::Firefox) => BrowserKind::Firefox,
        Some(_) => BrowserKind::Chrome,
        None => capability_kind(config),
    }
}

/// An optional text, by its characters.
pub open spec fn text_option(o: Option<&str>) -> Option<Seq<char>> {
    match o {
        Some(s) => Some(s@),
        None => None,
    }
}

/// The arguments of a Chrome session: headless mode when asked, the user
/// data directory when given, the three flags every session gets, and the
/// proxy server when a non-empty one is set.
pub open spec fn chrome_argument_list(
    headless: bool,
    user_data_dir: Option<Seq<char>>,
    proxy: Option<Seq<char>>,
) -> Seq<Seq<char>> {
    let head: Seq<Seq<char>> = if headless {
        seq!["--headless"@]
    } else {
        Seq::empty()
    };
    let dir: Seq<Seq<char>> = match user_data_dir {
        Some(d) => seq!["--user-data-dir="@ + d],
        None => Seq::empty(),
    };
    let fixed: Seq<Seq<char>> = seq!["--disable-gpu"@, "--disable-dev-shm-usage"@, "--no-sandbox"@];
    let via: Seq<Seq<char>> = match proxy {
        Some(p) => if p.len() > 0 {
            seq!["--proxy-server="@ + p]
        } else {
            Seq::empty()
        },
        None => Seq::empty(),
    };
    head + dir + fixed + via
}

/// A flag with a value: the flag's text followed by the value.
fn flag_with(flag: &str, value: &str) -> (r: String)
    ensures
        r@ == flag@ + value@,
{
    let mut v: Vec<char> = Vec::new();
    append_str(&mut v, flag);
    append_str(&mut v, value);
    string_of(v.as_slice())
}

/// The arguments a Chrome session is launched with; `user_data_dir` is the
/// directory's path as text and `proxy` the proxy chosen for the session.
pub fn chrome_arguments(headless: bool, user_data_dir: Option<&str>, proxy: Option<&str>) -> (r: Vec<String>)
    ensures
        string_views(r@) == chrome_argument_list(headless, text_option(user_data_dir), text_option(proxy)),
{
    let mut out: Vec<String> = Vec::new();
    if headless {
        out.push(str_to_string("--headless"));
    }
    match user_data_dir {
        Some(d) => {
            out.push(flag_with("--user-data-dir=", d));
        },
        None => {},
    }
    out.push(str_to_string("--disable-gpu"));
    out.push(str_to_string("--disable-dev-shm-usage"));
    out.push(str_to_string("--no-sandbox"));
    match proxy {
        Some(p) => {
            if p.unicode_len() > 0 {
                out.push(flag_with("--proxy-server=", p));
            }
        },
        None => {},
    }
    assert(string_views(out@) =~= chrome_argument_list(
        headless,
        text_option(user_data_dir),
        text_option(proxy),
    ));
    out
}

/// The arguments of a Firefox session: headless mode when asked and the
/// profile directory when given.
pub open spec fn firefox_argument_list(headless: bool, profile: Option<Seq<char>>) -> Seq<Seq<char>> {
    let head: Seq<Seq<char>> = if headless {
        seq!["--headless"@]
    } else {
        Seq::empty()
    };
    let dir: Seq<Seq<char>> = match profile {
        Some(d) => seq!["--profile="@ + d],
        None => Seq::empty(),
    };
    head + dir
}

/// The arguments a Firefox session is launched with.
pub fn firefox_arguments(headless: bool, profile: Option<&str>) -> (r: Vec<String>)
    ensures
        string_views(r@) == firefox_argument_list(headless, text_option(profile)),
{
    let mut out: Vec<String> = Vec::new();
    if headless {
        out.push(str_to_string("--headless"));
    }
    match profile {
        Some(d) => {
            out.push(flag_with("--profile=", d));
        },
        None => {},
    }
    assert(string_views(out@) =~= firefox_argument_list(headless, text_option(profile)));
    out
}

/// The address of a driver the configuration points at: its web driver
/// address, where it sets a non-empty one.
pub open spec fn external_address(config: Option<Config>) -> Option<Seq<char>> {
    match config {
        Some(c) => match c.fetcher.web_driver_url {
            Some(u) => if u@.len() > 0 {
                Some(u@)
            } else {
                None
            },
            None => None,
        },
        None => None,
    }
}

/// The configured external web driver address, where there is one; with
/// one, it is used alone.
pub fn external_endpoint(config: Option<&Config>) -> (r: Option<String>)
    ensures
        (match r {
            Some(u) => Some(u@),
            None => None,
        }) == external_address(match config {
            Some(c) => Some(*c),
            None => None,
        }),
{
    match config {
        Some(c) => match &c.fetcher.web_driver_url {
            Some(u) => {
                if u.as_str().unicode_len() > 0 {
                    Some(u.clone())
                } else {
                    None
                }
            },
            None => None,
        },
        None => None,
    }
}

/// Where a driver the manager started earlier would answer: the ChromeDriver
/// port for a Chrome driver name, the GeckoDriver port otherwise.
pub open spec fn local_address(config: Option<Config>) -> Seq<char> {
    match config {
        Some(c) => if names_chrome(c.fetcher.web_driver@) {
            "http://localhost:"@ + decimal(CHROMEDRIVER_DEFAULT_PORT as nat)
        } else {
            "http://localhost:"@ + decimal(GECKODRIVER_DEFAULT_PORT as nat)
        },
        None => "http://localhost:"@ + decimal(GECKODRIVER_DEFAULT_PORT as nat),
    }
}

/// The local address probed for a running driver before one is started.
pub fn local_endpoint(config: Option<&Config>) -> (r: String)
    ensures
        r@ == local_address(match config {
            Some(c) => Some(*c),
            None => None,
        }),
{
    let port: u16 = if wants_chrome(config) {
        CHROMEDRIVER_DEFAULT_PORT
    } else {
        GECKODRIVER_DEFAULT_PORT
    };
    let digits = decimal_text(port as usize);
    flag_with("http://localhost:", digits.as_str())
}

/// The drivers the manager tries to start, in order: GeckoDriver first for
/// a Firefox driver name, ChromeDriver first otherwise, the other one next.
pub open spec fn start_order(config: Option<Config>) -> Seq<DriverType> {
    match config {
        Some(c) => if names_firefox(c.fetcher.web_driver@) {
            seq![DriverType::Firefox, DriverType::Chrome]
        } else {
            seq![DriverType::Chrome, DriverType::Firefox]
        },
        None => seq![DriverType::Chrome, DriverType::Firefox],
    }
}

pub fn driver_start_order(config: Option<&Config>) -> (r: Vec<DriverType>)
    ensures
        r@ == start_order(match config {
            Some(c) => Some(*c),
            None => None,
        }),
{
    let r = if wants_firefox(config) {
        vec![DriverType::Firefox, DriverType::Chrome]
    } else {
        vec![DriverType::Chrome, DriverType::Firefox]
    };
    assert(r@ =~= start_order(match config {
        Some(c) => Some(*c),
        None => None,
    }));
    r
}

/// The port and arguments a self-managed driver is started with:
/// ChromeDriver on its port with the Chrome driver flags, any other driver
/// on the GeckoDriver port with the Firefox driver flags.
pub open spec fn managed_port(d: DriverType) -> u16 {
    match d {
        DriverType::Chrome => CHROMEDRIVER_DEFAULT_PORT,
        _ => GECKODRIVER_DEFAULT_PORT,
    }
}

pub open spec fn managed_arguments(d: DriverType) -> Seq<Seq<char>> {
    match d {
        DriverType::Chrome => seq!["--disable-gpu"@, "--no-sandbox"@, "--disable-dev-shm-usage"@],
        _ => seq!["--log=warn"@],
    }
}

/// The configuration a self-managed driver of a kind is started with.
pub fn managed_driver_config(driver_type: &DriverType) -> (r: DriverConfig)
    ensures
        r.driver_type == *driver_type,
        r.port == managed_port(*driver_type),
        string_views(r.args@) == managed_arguments(*driver_type),
        r.timeout == seconds(DEFAULT_TIMEOUT_SECS),
        !r.verbose,
{
    let (port, args) = match driver_type {
        DriverType::Chrome => (
            CHROMEDRIVER_DEFAULT_PORT,
            vec![
                str_to_string("--disable-gpu"),
                str_to_string("--no-sandbox"),
                str_to_string("--disable-dev-shm-usage"),
            ],
        ),
        _ => (GECKODRIVER_DEFAULT_PORT, vec![str_to_string("--log=warn")]),
    };
    assert(string_views(args@) =~= managed_arguments(*driver_type));
    DriverConfig {
        driver_type: driver_type.cloned(),
        port,
        args,
        timeout: duration_from_secs(DEFAULT_TIMEOUT_SECS),
        verbose: false,
    }
}

/// The name of the `i`th of several browsers made together: the base name,
/// an underscore and the index.
pub open spec fn numbered_instance(base: Seq<char>, i: nat) -> Seq<char> {
    base + "_"@ + decimal(i)
}

/// The base name of browsers made together: the given one, else `browser`.
pub open spec fn instance_base(base: Option<Seq<char>>) -> Seq<char> {
    match base {
        Some(b) => b,
        None => "browser"@,
    }
}

/// The names of `count` browsers made together.
pub fn instance_ids(base: Option<&str>, count: usize) -> (r: Vec<String>)
    ensures
        r@.len() == count,
        forall|i: int|
            0 <= i < count ==> #[trigger] r@[i]@ == numbered_instance(instance_base(text_option(base)), i as nat),
{
    let b: &str = match base {
        Some(s) => s,
        None => "browser",
    };
    let mut out: Vec<String> = Vec::new();
    let mut i: usize = 0;
    while i < count
        invariant
            i <= count,
            b@ == instance_base(text_option(base)),
            out@.len() == i,
            forall|j: int|
                0 <= j < i ==> #[trigger] out@[j]@ == numbered_instance(instance_base(text_option(base)), j as nat),
        decreases count - i,
    {
        let mut v: Vec<char> = Vec::new();
        append_str(&mut v, b);
        append_str(&mut v, "_");
        let d = decimal_text(i);
        append_str(&mut v, d.as_str());
        out.push(string_of(v.as_slice()));
        i = i + 1;
    }
    out
}

/// What has happened so far while a web driver endpoint is being found.
pub enum EndpointEvent {
    /// Nothing yet.
    Begin,
    /// The configured external address was probed; whether a driver answered.
    ExternalProbed(String, bool),
    /// The local address was probed; whether a driver answered.
    LocalProbed(String, bool),
    /// The driver at this index of the start order was started, giving its
    /// endpoint, or could not be started.
    DriverStarted(usize, Option<String>),
}

/// What to do next while a web driver endpoint is being found.
pub enum EndpointAction {
    /// Check whether a driver answers at the configured external address.
    ProbeExternal(String),
    /// Check whether a driver started earlier answers at the local address.
    ProbeLocal(String),
    /// Start a driver with this configuration; the index is its place in the
    /// start order.
    Start(usize, DriverConfig),
    /// Use this endpoint.
    Use(String),
    /// Give up with this error.
    Fail(TarziError),
}

/// The error when the configured external driver does not answer.
pub open spec fn external_unavailable_message(url: Seq<char>) -> Seq<char> {
    "External WebDriver server is not available at configured URL: "@ + url
        + ". Please ensure the WebDriver server is running at this URL, or remove the web_driver_url configuration to use self-managed drivers."@
}

/// The error when no driver could be started.
pub open spec fn no_driver_message() -> Seq<char> {
    "No self-managed WebDriver could be started. Please either:\n1. Install ChromeDriver (https://chromedriver.chromium.org/) or GeckoDriver (https://github.com/mozilla/geckodriver/releases) and ensure they're in your PATH, or\n2. Configure web_driver_url in your tarzi.toml file to use an external WebDriver server"@
}

/// A driver configuration as the manager starts a driver of a kind with.
pub open spec fn is_managed_config(dc: DriverConfig, d: DriverType) -> bool {
    &&& dc.driver_type == d
    &&& dc.port == managed_port(d)
    &&& string_views(dc.args@) == managed_arguments(d)
    &&& dc.timeout == seconds(DEFAULT_TIMEOUT_SECS)
    &&& !dc.verbose
}

/// Starting the driver at an index of the start order.
pub open spec fn starts(a: EndpointAction, cfg: Option<Config>, i: int) -> bool {
    a matches EndpointAction::Start(k, dc) && k == i && is_managed_config(dc, start_order(cfg)[i])
}

/// The next step in finding a web driver endpoint. An external address,
/// where one is configured, is used alone: it is probed, used if a driver
/// answers there and is an error otherwise; no driver is started for it.
/// Without one, a driver answering at the local address is used, and
/// otherwise the drivers of the start order are started in turn, the first
/// that starts giving the endpoint.
pub fn next_endpoint_action(config: Option<&Config>, event: &EndpointEvent) -> (r: EndpointAction)
    ensures
        ({
            let cfg = match config {
                Some(c) => Some(*c),
                None => None,
            };
            match *event {
                EndpointEvent::Begin => match external_address(cfg) {
                    Some(u) => r matches EndpointAction::ProbeExternal(a) && a@ == u,
                    None => r matches EndpointAction::ProbeLocal(a) && a@ == local_address(cfg),
                },
                EndpointEvent::ExternalProbed(url, up) => if up {
                    r matches EndpointAction::Use(a) && a@ == url@
                } else {
                    r matches EndpointAction::Fail(TarziError::Browser(m)) && m@ == external_unavailable_message(url@)
                },
                EndpointEvent::LocalProbed(url, up) => if up {
                    r matches EndpointAction::Use(a) && a@ == url@
                } else {
                    starts(r, cfg, 0)
                },
                EndpointEvent::DriverStarted(i, started) => match started {
                    Some(e) => r matches EndpointAction::Use(a) && a@ == e@,
                    None => if i + 1 < 2 {
                        starts(r, cfg, i + 1)
                    } else {
                        r matches EndpointAction::Fail(TarziError::Browser(m)) && m@ == no_driver_message()
                    },
                },
            }
        }),
{
    match event {
        EndpointEvent::Begin => match external_endpoint(config) {
            Some(u) => EndpointAction::ProbeExternal(u),
            None => EndpointAction::ProbeLocal(local_endpoint(config)),
        },
        EndpointEvent::ExternalProbed(url, up) => {
            if *up {
                EndpointAction::Use(url.clone())
            } else {
                let mut v: Vec<char> = Vec::new();
                append_str(&mut v, "External WebDriver server is not available at configured URL: ");
                append_str(&mut v, url.as_str());
                append_str(
                    &mut v,
                    ". Please ensure the WebDriver server is running at this URL, or remove the web_driver_url configuration to use self-managed drivers.",
                );
                EndpointAction::Fail(TarziError::Browser(string_of(v.as_slice())))
            }
        },
        EndpointEvent::LocalProbed(url, up) => {
            if *up {
                EndpointAction::Use(url.clone())
            } else {
                let order = driver_start_order(config);
                EndpointAction::Start(0, managed_driver_config(&order[0]))
            }
        },
        EndpointEvent::DriverStarted(i, started) => match started {
            Some(e) => EndpointAction::Use(e.clone()),
            None => {
                if *i < 1 {
                    let order = driver_start_order(config);
                    EndpointAction::Start(*i + 1, managed_driver_config(&order[*i + 1]))
                } else {
                    EndpointAction::Fail(
                        TarziError::Browser(
                            str_to_string(
                                "No self-managed WebDriver could be started. Please either:\n1. Install ChromeDriver (https://chromedriver.chromium.org/) or GeckoDriver (https://github.com/mozilla/geckodriver/releases) and ensure they're in your PATH, or\n2. Configure web_driver_url in your tarzi.toml file to use an external WebDriver server",
                            ),
                        ),
                    )
                }
            },
        },
    }
}

} // verus!
