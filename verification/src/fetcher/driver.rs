//! Web driver kinds, configurations and states, and the decisions the driver
//! manager makes: which binary to run, with which arguments, at which
//! address, and what to say when a binary is missing.
use vstd::prelude::*;
use std::collections::HashMap;
use std::time::{Duration, Instant};
use vstd::std_specs::hash::spec_keys_iter;
use vstd::std_specs::iter::IteratorSpec;
use crate::constants::{CHROMEDRIVER_DEFAULT_PORT, DEFAULT_TIMEOUT_SECS};
use crate::error::TarziError;
use crate::text::{append_str, decimal, decimal_text, str_eq, str_to_string, string_of, to_lowercase, unicode_lowercase};

verus! {

#[verifier::external_type_specification]
#[verifier::external_body]
pub struct ExInstant(Instant);

/// `Duration` is `Copy`: its clone is the same duration.
pub assume_specification[ <Duration as Clone>::clone ](d: &Duration) -> (r: Duration)
    ensures
        r == *d,
;

/// `Instant` is `Copy`: its clone is the same instant.
pub assume_specification[ <Instant as Clone>::clone ](t: &Instant) -> (r: Instant)
    ensures
        r == *t,
;

/// The name of the duration `Duration::from_secs` makes of a number of
/// seconds.
pub uninterp spec fn seconds(secs: u64) -> Duration;

/// Calls `Duration::from_secs`; claimed: the result is `seconds(secs)`.
#[verifier::external_body]
pub(crate) fn duration_from_secs(secs: u64) -> (r: Duration)
    ensures
        r == seconds(secs),
{
    Duration::from_secs(secs)
}

/// Supported web driver types.
#[derive(Debug, Clone, PartialEq, Eq, Hash)]
pub enum DriverType {
    /// ChromeDriver for Chrome and Chromium browsers
    Chrome,
    /// GeckoDriver for Firefox browser
    Firefox,
    /// Generic driver type for future extensions
    Generic(String),
}

/// The name of a driver kind: its binary's name.
pub open spec fn driver_name(d: DriverType) -> Seq<char> {
    match d {
        DriverType::Chrome => "chromedriver"@,
        DriverType::Firefox => "geckodriver"@,
        DriverType::Generic(n) => n@,
    }
}

/// The driver kind a name stands for: the two known drivers by binary or
/// browser name (ignoring case), anything else a generic driver of that name.
pub open spec fn driver_named(s: Seq<char>) -> DriverType {
    let lower = unicode_lowercase(s);
    if lower == "chromedriver"@ || lower == "chrome"@ {
        DriverType::Chrome
    } else if lower == "geckodriver"@ || lower == "firefox"@ {
        DriverType::Firefox
    } else {
        DriverType::Generic(choose|n: String| n@ == s)
    }
}

impl DriverType {
    /// The driver's name (its `Display` text).
    pub fn to_string(&self) -> (r: String)
        ensures
            r@ == driver_name(*self),
    {
        match self {
            DriverType::Chrome => str_to_string("chromedriver"),
            DriverType::Firefox => str_to_string("geckodriver"),
            DriverType::Generic(name) => name.clone(),
        }
    }

    /// Parses a driver name; it never fails, an unknown name being a generic
    /// driver.
    pub fn parse(s: &str) -> (r: Result<DriverType, TarziError>)
        ensures
            r matches Ok(d) && driver_name(d) == driver_name(driver_named(s@)) && (d is Generic <==> driver_named(
                s@,
            ) is Generic),
    {
        let lower = to_lowercase(s);
        let l = lower.as_str();
        if str_eq(l, "chromedriver") || str_eq(l, "chrome") {
            Ok(DriverType::Chrome)
        } else if str_eq(l, "geckodriver") || str_eq(l, "firefox") {
            Ok(DriverType::Firefox)
        } else {
            let n = str_to_string(s);
            assert(exists|m: String| m@ == s@);
            Ok(DriverType::Generic(n))
        }
    }

    /// A copy of this driver kind.
    pub fn cloned(&self) -> (r: DriverType)
        ensures
            r == *self,
    {
        match self {
            DriverType::Chrome => DriverType::Chrome,
            DriverType::Firefox => DriverType::Firefox,
            DriverType::Generic(n) => DriverType::Generic(n.clone()),
        }
    }
}

impl std::str::FromStr for DriverType {
    type Err = TarziError;

    fn from_str(s: &str) -> (r: Result<DriverType, TarziError>)
        ensures
            r matches Ok(d) && driver_name(d) == driver_name(driver_named(s@)) && (d is Generic <==> driver_named(
                s@,
            ) is Generic),
    {
        DriverType::parse(s)
    }
}

/// Configuration for a web driver.
#[derive(Debug, Clone)]
pub struct DriverConfig {
    /// Type of driver
    pub driver_type: DriverType,
    /// Port to run the driver on
    pub port: u16,
    /// Additional command line arguments
    pub args: Vec<String>,
    /// Timeout for driver operations
    pub timeout: Duration,
    /// Whether to enable verbose logging
    pub verbose: bool,
}

impl Default for DriverConfig {
    fn default() -> (r: DriverConfig)
        ensures
            r.driver_type == DriverType::Chrome,
            r.port == CHROMEDRIVER_DEFAULT_PORT,
            r.args@.len() == 0,
            r.timeout == seconds(DEFAULT_TIMEOUT_SECS),
            !r.verbose,
    {
        DriverConfig {
            driver_type: DriverType::Chrome,
            port: CHROMEDRIVER_DEFAULT_PORT,
            args: Vec::new(),
            timeout: duration_from_secs(DEFAULT_TIMEOUT_SECS),
            verbose: false,
        }
    }
}

/// Status of a web driver process.
#[derive(Debug, Clone, PartialEq)]
pub enum DriverStatus {
    /// Driver is not running
    Stopped,
    /// Driver is starting up
    Starting,
    /// Driver is running and ready
    Running,
    /// Driver has failed
    Failed(String),
}

/// Information about a running driver.
#[derive(Debug, Clone)]
pub struct DriverInfo {
    /// Configuration used to start the driver
    pub config: DriverConfig,
    /// Current status of the driver
    pub status: DriverStatus,
    /// Process ID of the driver
    pub pid: Option<u32>,
    /// Time when the driver was started
    pub started_at: Instant,
    /// WebDriver endpoint URL
    pub endpoint: String,
}

/// The binary to run for a driver kind.
pub fn driver_binary_name(driver_type: &DriverType) -> (r: String)
    ensures
        r@ == driver_name(*driver_type),
{
    driver_type.to_string()
}

/// The driver kinds the manager knows how to start.
pub fn supported_drivers() -> (r: Vec<DriverType>)
    ensures
        r@ == seq![DriverType::Chrome, DriverType::Firefox],
{
    let r = vec![DriverType::Chrome, DriverType::Firefox];
    assert(r@ =~= seq![DriverType::Chrome, DriverType::Firefox]);
    r
}

/// A driver configuration of a kind and port, with the other settings at
/// their defaults.
pub fn create_config(driver_type: DriverType, port: u16) -> (r: DriverConfig)
    ensures
        r.driver_type == driver_type,
        r.port == port,
        r.args@.len() == 0,
        r.timeout == seconds(DEFAULT_TIMEOUT_SECS),
        !r.verbose,
{
    DriverConfig {
        driver_type,
        port,
        args: Vec::new(),
        timeout: duration_from_secs(DEFAULT_TIMEOUT_SECS),
        verbose: false,
    }
}

/// The local address a driver on a port answers at.
pub open spec fn endpoint_text(port: u16) -> Seq<char> {
    "http://127.0.0.1:"@ + decimal(port as nat)
}

pub fn endpoint_for(port: u16) -> (r: String)
    ensures
        r@ == endpoint_text(port),
{
    let mut v: Vec<char> = Vec::new();
    append_str(&mut v, "http://127.0.0.1:");
    let p = decimal_text(port as usize);
    append_str(&mut v, p.as_str());
    string_of(v.as_slice())
}

/// The command-line arguments a driver is started with: its port, the
/// kind's own flags (verbose logging when asked), then the configured
/// arguments.
pub open spec fn driver_arguments(c: DriverConfig) -> Seq<Seq<char>> {
    let port = seq!["--port="@ + decimal(c.port as nat)];
    let own = match c.driver_type {
        DriverType::Chrome => if c.verbose {
            seq!["--whitelisted-ips="@, "--verbose"@]
        } else {
            seq!["--whitelisted-ips="@]
        },
        DriverType::Firefox => if c.verbose {
            seq!["--host=127.0.0.1"@, "--log"@, "debug"@]
        } else {
            seq!["--host=127.0.0.1"@]
        },
        DriverType::Generic(_) => Seq::empty(),
    };
    port + own + c.args@.map_values(|a: String| a@)
}

pub open spec fn string_views(v: Seq<String>) -> Seq<Seq<char>> {
    v.map_values(|a: String| a@)
}

pub fn driver_args(config: &DriverConfig) -> (r: Vec<String>)
    ensures
        string_views(r@) == driver_arguments(*config),
{
    let mut out: Vec<String> = Vec::new();
    let mut first: Vec<char> = Vec::new();
    append_str(&mut first, "--port=");
    let p = decimal_text(config.port as usize);
    append_str(&mut first, p.as_str());
    out.push(string_of(first.as_slice()));
    match &config.driver_type {
        DriverType::Chrome => {
            out.push(str_to_string("--whitelisted-ips="));
            if config.verbose {
                out.push(str_to_string("--verbose"));
            }
        },
        DriverType::Firefox => {
            out.push(str_to_string("--host=127.0.0.1"));
            if config.verbose {
                out.push(str_to_string("--log"));
                out.push(str_to_string("debug"));
            }
        },
        DriverType::Generic(_) => {},
    }
    let ghost head = string_views(out@);
    let mut i: usize = 0;
    while i < config.args.len()
        invariant
            i <= config.args@.len(),
            string_views(out@) == head + string_views(config.args@).subrange(0, i as int),
        decreases config.args.len() - i,
    {
        let a = config.args[i].clone();
        let ghost before = string_views(out@);
        assert(a@ == string_views(config.args@)[i as int]);
        out.push(a);
        assert(string_views(out@) =~= before.push(a@));
        i = i + 1;
        assert(string_views(out@) =~= head + string_views(config.args@).subrange(0, i as int));
    }
    assert(string_views(config.args@).subrange(0, i as int) =~= string_views(config.args@));
    assert(string_views(out@) =~= driver_arguments(*config));
    out
}

/// The error for a driver binary that is not installed: a generic driver is
/// named as such, a known one comes with where to get it.
pub open spec fn missing_driver_message(d: DriverType) -> Seq<char> {
    match d {
        DriverType::Chrome => "chromedriver not found in PATH. Please install ChromeDriver: https://chromedriver.chromium.org/"@,
        DriverType::Firefox => "geckodriver not found in PATH. Please install GeckoDriver: https://github.com/mozilla/geckodriver/releases"@,
        DriverType::Generic(n) => "Driver '"@ + n@ + "' not found in PATH. Please ensure it's installed and available."@,
    }
}

pub fn missing_driver_error(driver_type: &DriverType) -> (r: TarziError)
    ensures
        r matches TarziError::DriverNotFound(m) && m@ == missing_driver_message(*driver_type),
{
    match driver_type {
        DriverType::Chrome => TarziError::DriverNotFound(
            str_to_string("chromedriver not found in PATH. Please install ChromeDriver: https://chromedriver.chromium.org/"),
        ),
        DriverType::Firefox => TarziError::DriverNotFound(
            str_to_string("geckodriver not found in PATH. Please install GeckoDriver: https://github.com/mozilla/geckodriver/releases"),
        ),
        DriverType::Generic(name) => {
            let mut v: Vec<char> = Vec::new();
            append_str(&mut v, "Driver '");
            append_str(&mut v, name.as_str());
            append_str(&mut v, "' not found in PATH. Please ensure it's installed and available.");
            TarziError::DriverNotFound(string_of(v.as_slice()))
        },
    }
}

/// A copy of a list of texts.
pub fn copy_strings(v: &Vec<String>) -> (r: Vec<String>)
    ensures
        r@ == v@,
{
    let mut out: Vec<String> = Vec::new();
    let mut i: usize = 0;
    while i < v.len()
        invariant
            i <= v@.len(),
            out@ == v@.subrange(0, i as int),
        decreases v.len() - i,
    {
        out.push(v[i].clone());
        i = i + 1;
        assert(out@ =~= v@.subrange(0, i as int));
    }
    assert(v@.subrange(0, i as int) =~= v@);
    out
}

/// Two driver configurations with the same settings.
pub open spec fn same_config(a: DriverConfig, b: DriverConfig) -> bool {
    &&& a.driver_type == b.driver_type
    &&& a.port == b.port
    &&& a.args@ == b.args@
    &&& a.timeout == b.timeout
    &&& a.verbose == b.verbose
}

impl DriverConfig {
    /// A copy of this configuration.
    pub fn cloned(&self) -> (r: DriverConfig)
        ensures
            same_config(r, *self),
    {
        DriverConfig {
            driver_type: self.driver_type.cloned(),
            port: self.port,
            args: copy_strings(&self.args),
            timeout: self.timeout,
            verbose: self.verbose,
        }
    }
}

/// A driver process the manager started: how it was started, its process
/// id and when it started. The process itself is held by the application.
#[derive(Debug)]
pub struct RunningDriver {
    pub config: DriverConfig,
    pub pid: u32,
    pub started_at: Instant,
}

/// What the manager reports of a driver it runs: the driver's record, the
/// health check's verdict and its local endpoint.
pub open spec fn reported(d: RunningDriver, healthy: bool, info: DriverInfo) -> bool {
    &&& same_config(info.config, d.config)
    &&& if healthy {
        info.status == DriverStatus::Running
    } else {
        info.status matches DriverStatus::Failed(m) && m@ == "Driver not responding"@
    }
    &&& info.pid == Some(d.pid)
    &&& info.started_at == d.started_at
    &&& info.endpoint@ == endpoint_text(d.config.port)
}

/// A registry of drivers in which each driver is filed under its own port.
pub open spec fn filed_by_port(running: Map<u16, RunningDriver>) -> bool {
    forall|p: u16| #[trigger] running.contains_key(p) ==> running[p].config.port == p
}

/// The web driver manager: the drivers it runs, by port, and the
/// configuration drivers are started with by default.
pub struct DriverManager {
    running: HashMap<u16, RunningDriver>,
    default_config: DriverConfig,
}

impl View for DriverManager {
    type V = Map<u16, RunningDriver>;

    closed spec fn view(&self) -> Map<u16, RunningDriver> {
        self.running@
    }
}

impl DriverManager {
    #[verifier::type_invariant]
    closed spec fn by_port(self) -> bool {
        filed_by_port(self.running@)
    }

    /// The configuration drivers are started with by default.
    pub closed spec fn defaults(self) -> DriverConfig {
        self.default_config
    }

    /// A manager that runs no driver, with the default driver configuration.
    pub fn new() -> (r: DriverManager)
        ensures
            r@ == Map::<u16, RunningDriver>::empty(),
            r.defaults().driver_type == DriverType::Chrome,
            r.defaults().port == CHROMEDRIVER_DEFAULT_PORT,
            r.defaults().args@.len() == 0,
            r.defaults().timeout == seconds(DEFAULT_TIMEOUT_SECS),
            !r.defaults().verbose,
    {
        DriverManager { running: HashMap::new(), default_config: DriverConfig::default() }
    }

    /// A manager that runs no driver, with a driver configuration of its own.
    pub fn with_config(config: DriverConfig) -> (r: DriverManager)
        ensures
            r@ == Map::<u16, RunningDriver>::empty(),
            r.defaults() == config,
    {
        DriverManager { running: HashMap::new(), default_config: config }
    }

    /// The configuration drivers are started with by default.
    pub fn default_config(&self) -> (r: &DriverConfig)
        ensures
            *r == self.defaults(),
    {
        &self.default_config
    }

    /// Whether the manager runs a driver on a port.
    pub fn is_port_in_use(&self, port: u16) -> (r: bool)
        ensures
            r == self@.contains_key(port),
    {
        broadcast use vstd::std_specs::hash::group_hash_axioms;
        self.running.contains_key(&port)
    }

    /// The ports the manager runs drivers on, each once, in the order the
    /// registry hands them out.
    pub fn ports(&self) -> (r: Vec<u16>)
        ensures
            r@.no_duplicates(),
            r@.to_set() == self@.dom(),
    {
        broadcast use vstd::std_specs::hash::group_hash_axioms;
        let mut out: Vec<u16> = Vec::new();
        for p in it: self.running.keys()
            invariant
                it.seq() == spec_keys_iter(&self.running).remaining(),
                out@ == it.seq().unref().take(it.index()),
        {
            out.push(*p);
        }
        assert(out@ =~= spec_keys_iter(&self.running).remaining().unref());
        out
    }

    /// Refuses a start on a port the manager already runs a driver on.
    pub fn check_port_free(&self, config: &DriverConfig) -> (r: Result<(), TarziError>)
        ensures
            r is Ok <==> !self@.contains_key(config.port),
            r matches Err(TarziError::Driver(m)) ==> m@ == "Port "@ + decimal(config.port as nat)
                + " is already in use"@,
    {
        if self.is_port_in_use(config.port) {
            let mut v: Vec<char> = Vec::new();
            append_str(&mut v, "Port ");
            let p = decimal_text(config.port as usize);
            append_str(&mut v, p.as_str());
            append_str(&mut v, " is already in use");
            Err(TarziError::Driver(string_of(v.as_slice())))
        } else {
            Ok(())
        }
    }

    /// Records a driver the application started, and reports it running at
    /// its local endpoint.
    pub fn register(&mut self, config: DriverConfig, pid: u32, started_at: Instant) -> (r: DriverInfo)
        requires
            !old(self)@.contains_key(config.port),
        ensures
            final(self)@ == old(self)@.insert(config.port, RunningDriver { config, pid, started_at }),
            final(self).defaults() == old(self).defaults(),
            filed_by_port(final(self)@),
            reported(RunningDriver { config, pid, started_at }, true, r),
    {
        broadcast use vstd::std_specs::hash::group_hash_axioms;
        proof {
            use_type_invariant(&*self);
        }
        let endpoint = endpoint_for(config.port);
        let info = DriverInfo {
            config: config.cloned(),
            status: DriverStatus::Running,
            pid: Some(pid),
            started_at,
            endpoint,
        };
        let port = config.port;
        let mut running: HashMap<u16, RunningDriver> = HashMap::new();
        std::mem::swap(&mut running, &mut self.running);
        running.insert(port, RunningDriver { config, pid, started_at });
        self.running = running;
        info
    }

    /// Forgets the driver on a port, handing back its record so that the
    /// application can end its process; an error when none runs there.
    pub fn stop_driver(&mut self, port: u16) -> (r: Result<RunningDriver, TarziError>)
        ensures
            final(self).defaults() == old(self).defaults(),
            filed_by_port(final(self)@),
            match r {
                Ok(d) => {
                    &&& old(self)@.contains_key(port)
                    &&& d == old(self)@[port]
                    &&& d.config.port == port
                    &&& final(self)@ == old(self)@.remove(port)
                },
                Err(e) => {
                    &&& !old(self)@.contains_key(port)
                    &&& final(self)@ == old(self)@
                    &&& e matches TarziError::Driver(m) && m@ == "No driver running on port "@ + decimal(port as nat)
                },
            },
    {
        broadcast use vstd::std_specs::hash::group_hash_axioms;
        proof {
            use_type_invariant(&*self);
        }
        if !self.running.contains_key(&port) {
            let mut v: Vec<char> = Vec::new();
            append_str(&mut v, "No driver running on port ");
            let p = decimal_text(port as usize);
            append_str(&mut v, p.as_str());
            return Err(TarziError::Driver(string_of(v.as_slice())));
        }
        let mut running: HashMap<u16, RunningDriver> = HashMap::new();
        std::mem::swap(&mut running, &mut self.running);
        let removed = running.remove(&port);
        self.running = running;
        match removed {
            Some(d) => Ok(d),
            None => {
                let mut v: Vec<char> = Vec::new();
                append_str(&mut v, "No driver running on port ");
                let p = decimal_text(port as usize);
                append_str(&mut v, p.as_str());
                Err(TarziError::Driver(string_of(v.as_slice())))
            },
        }
    }

    /// What the manager knows of the driver on a port, with the application's
    /// health check of it; `None` when no driver runs there.
    pub fn get_driver_info(&self, port: u16, healthy: bool) -> (r: Option<DriverInfo>)
        ensures
            match r {
                Some(info) => self@.contains_key(port) && reported(self@[port], healthy, info),
                None => !self@.contains_key(port),
            },
    {
        broadcast use vstd::std_specs::hash::group_hash_axioms;
        match self.running.get(&port) {
            Some(d) => Some(Self::report(d, healthy)),
            None => None,
        }
    }

    fn report(d: &RunningDriver, healthy: bool) -> (r: DriverInfo)
        ensures
            reported(*d, healthy, r),
    {
        let status = if healthy {
            DriverStatus::Running
        } else {
            DriverStatus::Failed(str_to_string("Driver not responding"))
        };
        DriverInfo {
            config: d.config.cloned(),
            status,
            pid: Some(d.pid),
            started_at: d.started_at,
            endpoint: endpoint_for(d.config.port),
        }
    }

    /// What the manager knows of the drivers on the given ports, in their
    /// order, each with the application's health verdict for it.
    pub fn list_drivers(&self, checked: &Vec<(u16, bool)>) -> (r: Vec<DriverInfo>)
        requires
            forall|i: int| 0 <= i < checked@.len() ==> self@.contains_key(#[trigger] checked@[i].0),
        ensures
            r@.len() == checked@.len(),
            forall|i: int|
                0 <= i < checked@.len() ==> reported(self@[checked@[i].0], checked@[i].1, #[trigger] r@[i]),
    {
        broadcast use vstd::std_specs::hash::group_hash_axioms;
        let mut out: Vec<DriverInfo> = Vec::new();
        let mut i: usize = 0;
        while i < checked.len()
            invariant
                i <= checked@.len(),
                forall|j: int| 0 <= j < checked@.len() ==> self@.contains_key(#[trigger] checked@[j].0),
                out@.len() == i,
                forall|j: int| 0 <= j < i ==> reported(self@[checked@[j].0], checked@[j].1, #[trigger] out@[j]),
            decreases checked.len() - i,
        {
            let (port, healthy) = checked[i];
            assert(self@.contains_key(checked@[i as int].0));
            match self.running.get(&port) {
                Some(d) => out.push(Self::report(d, healthy)),
                None => {},
            }
            i = i + 1;
        }
        out
    }
}

} // verus!
