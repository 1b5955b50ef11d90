//! The library's error type. Errors that come from outside crates carry the
//! message of the outside error.
use vstd::prelude::*;
use crate::text::concat2;

verus! {

#[derive(Debug)]
pub enum TarziError {
    Io(String),
    Http(String),
    Url(String),
    Json(String),
    Yaml(String),
    Browser(String),
    BrowserError(String),
    Conversion(String),
    Search(String),
    InvalidFormat(String),
    InvalidMode(String),
    InvalidEngine(String),
    Config(String),
    Network(String),
    Parse(String),
    WebDriver(String),
    Driver(String),
    DriverNotFound(String),
    DriverProcess(String),
}

pub type Result<T> = std::result::Result<T, TarziError>;

/// The text in front of the payload in each variant's message.
pub open spec fn message_prefix(e: TarziError) -> Seq<char> {
    match e {
        TarziError::Io(_) => "IO error: "@,
        TarziError::Http(_) => "HTTP request error: "@,
        TarziError::Url(_) => "URL parsing error: "@,
        TarziError::Json(_) => "JSON serialization error: "@,
        TarziError::Yaml(_) => "YAML serialization error: "@,
        TarziError::Browser(_) => "Browser automation error: "@,
        TarziError::BrowserError(_) => "Browser error: "@,
        TarziError::Conversion(_) => "Conversion error: "@,
        TarziError::Search(_) => "Search error: "@,
        TarziError::InvalidFormat(_) => "Invalid format: "@,
        TarziError::InvalidMode(_) => "Invalid mode: "@,
        TarziError::InvalidEngine(_) => "Invalid search engine: "@,
        TarziError::Config(_) => "Configuration error: "@,
        TarziError::Network(_) => "Network error: "@,
        TarziError::Parse(_) => "Parse error: "@,
        TarziError::WebDriver(_) => "WebDriver error: "@,
        TarziError::Driver(_) => "Driver error: "@,
        TarziError::DriverNotFound(_) => "Driver not found: "@,
        TarziError::DriverProcess(_) => "Driver process error: "@,
    }
}

pub open spec fn payload(e: TarziError) -> Seq<char> {
    match e {
        TarziError::Io(m) => m@,
        TarziError::Http(m) => m@,
        TarziError::Url(m) => m@,
        TarziError::Json(m) => m@,
        TarziError::Yaml(m) => m@,
        TarziError::Browser(m) => m@,
        TarziError::BrowserError(m) => m@,
        TarziError::Conversion(m) => m@,
        TarziError::Search(m) => m@,
        TarziError::InvalidFormat(m) => m@,
        TarziError::InvalidMode(m) => m@,
        TarziError::InvalidEngine(m) => m@,
        TarziError::Config(m) => m@,
        TarziError::Network(m) => m@,
        TarziError::Parse(m) => m@,
        TarziError::WebDriver(m) => m@,
        TarziError::Driver(m) => m@,
        TarziError::DriverNotFound(m) => m@,
        TarziError::DriverProcess(m) => m@,
    }
}

impl TarziError {
    /// The human-readable message: the variant's prefix followed by its payload.
    pub fn to_string(&self) -> (r: String)
        ensures
            r@ == message_prefix(*self) + payload(*self),
    {
        match self {
            TarziError::Io(m) => concat2("IO error: ", m.as_str()),
            TarziError::Http(m) => concat2("HTTP request error: ", m.as_str()),
            TarziError::Url(m) => concat2("URL parsing error: ", m.as_str()),
            TarziError::Json(m) => concat2("JSON serialization error: ", m.as_str()),
            TarziError::Yaml(m) => concat2("YAML serialization error: ", m.as_str()),
            TarziError::Browser(m) => concat2("Browser automation error: ", m.as_str()),
            TarziError::BrowserError(m) => concat2("Browser error: ", m.as_str()),
            TarziError::Conversion(m) => concat2("Conversion error: ", m.as_str()),
            TarziError::Search(m) => concat2("Search error: ", m.as_str()),
            TarziError::InvalidFormat(m) => concat2("Invalid format: ", m.as_str()),
            TarziError::InvalidMode(m) => concat2("Invalid mode: ", m.as_str()),
            TarziError::InvalidEngine(m) => concat2("Invalid search engine: ", m.as_str()),
            TarziError::Config(m) => concat2("Configuration error: ", m.as_str()),
            TarziError::Network(m) => concat2("Network error: ", m.as_str()),
            TarziError::Parse(m) => concat2("Parse error: ", m.as_str()),
            TarziError::WebDriver(m) => concat2("WebDriver error: ", m.as_str()),
            TarziError::Driver(m) => concat2("Driver error: ", m.as_str()),
            TarziError::DriverNotFound(m) => concat2("Driver not found: ", m.as_str()),
            TarziError::DriverProcess(m) => concat2("Driver process error: ", m.as_str()),
        }
    }
}

} // verus!
