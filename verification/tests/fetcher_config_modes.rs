use std::str::FromStr;
use tarzi::constants::{FETCHER_MODE_BROWSER_HEADLESS, FETCHER_MODE_HEAD, FETCHER_MODE_PLAIN_REQUEST};
use tarzi::fetcher::types::FetchMode;

#[test]
fn tests_test_fetch_mode_from_str() {
    // Test valid modes
    assert_eq!(
        FetchMode::from_str(FETCHER_MODE_PLAIN_REQUEST).unwrap(),
        FetchMode::PlainRequest
    );
    assert_eq!(
        FetchMode::from_str(FETCHER_MODE_PLAIN_REQUEST.to_uppercase().as_str()).unwrap(),
        FetchMode::PlainRequest
    );
    assert_eq!(
        FetchMode::from_str(FETCHER_MODE_HEAD).unwrap(),
        FetchMode::BrowserHead
    );
    assert_eq!(FetchMode::from_str(FETCHER_MODE_HEAD.to_uppercase().as_str()).unwrap(), FetchMode::BrowserHead);

    assert_eq!(
        FetchMode::from_str(FETCHER_MODE_BROWSER_HEADLESS).unwrap(),
        FetchMode::BrowserHeadless
    );
    assert_eq!(
        FetchMode::from_str(FETCHER_MODE_BROWSER_HEADLESS.to_uppercase().as_str()).unwrap(),
        FetchMode::BrowserHeadless
    );

    // Test invalid modes
    assert!(FetchMode::from_str("invalid").is_err());
    assert!(FetchMode::from_str("").is_err());
    assert!(FetchMode::from_str("browser").is_err());
    assert!(FetchMode::from_str("request").is_err());
}

#[test]
fn tests_test_fetch_mode_partial_eq() {
    assert_eq!(FetchMode::PlainRequest, FetchMode::PlainRequest);
    assert_eq!(FetchMode::BrowserHead, FetchMode::BrowserHead);
    assert_eq!(FetchMode::BrowserHeadless, FetchMode::BrowserHeadless);

    assert_ne!(FetchMode::PlainRequest, FetchMode::BrowserHead);
    assert_ne!(FetchMode::PlainRequest, FetchMode::BrowserHeadless);
    assert_ne!(FetchMode::BrowserHead, FetchMode::BrowserHeadless);
}

#[test]
fn tests_test_fetch_mode_debug() {
    assert_eq!(format!("{:?}", FetchMode::PlainRequest), "PlainRequest");
    assert_eq!(format!("{:?}", FetchMode::BrowserHead), "BrowserHead");
    assert_eq!(
        format!("{:?}", FetchMode::BrowserHeadless),
        "BrowserHeadless"
    );
}

#[test]
fn tests_test_fetch_mode_clone() {
    let mode1 = FetchMode::PlainRequest;
    let mode2 = mode1;
    assert_eq!(mode1, mode2);

    let mode3 = FetchMode::BrowserHead;
    let mode4 = mode3;
    assert_eq!(mode3, mode4);
}

#[test]
fn tests_test_fetch_mode_copy() {
    let mode1 = FetchMode::BrowserHeadless;
    let mode2 = mode1; // This should work because FetchMode is Copy
    assert_eq!(mode1, mode2);
}

#[test]
fn tests_test_fetch_mode_serialization() {
    // Test that FetchMode can be converted to string and back
    let modes = vec![
        FetchMode::PlainRequest,
        FetchMode::BrowserHead,
        FetchMode::BrowserHeadless,
    ];

    for mode in modes {
        let mode_str = match mode {
            FetchMode::PlainRequest => FETCHER_MODE_PLAIN_REQUEST,
            FetchMode::BrowserHead => "browser_head",
            FetchMode::BrowserHeadless => FETCHER_MODE_BROWSER_HEADLESS,
        };

        let parsed = FetchMode::from_str(mode_str).unwrap();
        assert_eq!(mode, parsed);
    }
}

#[test]
fn test_fetch_mode_enum() {
    // Test that FetchMode variants can be created
    let _plain = FetchMode::PlainRequest;
    let _browser_head = FetchMode::BrowserHead;
    let _browser_headless = FetchMode::BrowserHeadless;
}

#[test]
fn result_pages_fetch_mode() {
    assert_eq!(FetchMode::PlainRequest.effective_for_results(), FetchMode::PlainRequest);
    assert_eq!(FetchMode::BrowserHead.effective_for_results(), FetchMode::BrowserHeadless);
    assert_eq!(FetchMode::BrowserHeadless.effective_for_results(), FetchMode::BrowserHeadless);
}
