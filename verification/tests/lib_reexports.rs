use std::str::FromStr;
use tarzi::{FetchMode, Format};

#[test]
fn lib_test_format_parsing() {
    assert_eq!(Format::from_str("markdown").unwrap(), Format::Markdown);
    assert_eq!(Format::from_str("json").unwrap(), Format::Json);
    assert_eq!(Format::from_str("yaml").unwrap(), Format::Yaml);
    assert_eq!(Format::from_str("html").unwrap(), Format::Html);
}

#[test]
fn test_fetch_mode_parsing() {
    assert_eq!(
        FetchMode::from_str("plain_request").unwrap(),
        FetchMode::PlainRequest
    );
    assert_eq!(
        FetchMode::from_str("browser_head").unwrap(),
        FetchMode::BrowserHead
    );
    assert_eq!(
        FetchMode::from_str("browser_headless").unwrap(),
        FetchMode::BrowserHeadless
    );
}

#[test]
fn test_basic_functionality() {
    // Basic functionality test
}
