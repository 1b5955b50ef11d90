use std::str::FromStr;
use tarzi::fetcher::FetchMode;

#[test]
fn fetcher_test_fetch_mode_from_str() {
    // Test valid modes
    assert_eq!(
        FetchMode::from_str("plain_request").unwrap(),
        FetchMode::PlainRequest
    );
    assert_eq!(
        FetchMode::from_str("plain").unwrap(),
        FetchMode::PlainRequest
    );
    assert_eq!(
        FetchMode::from_str("PLAIN_REQUEST").unwrap(),
        FetchMode::PlainRequest
    );
    assert_eq!(
        FetchMode::from_str("PLAIN").unwrap(),
        FetchMode::PlainRequest
    );

    assert_eq!(
        FetchMode::from_str("browser_head").unwrap(),
        FetchMode::BrowserHead
    );
    assert_eq!(FetchMode::from_str("head").unwrap(), FetchMode::BrowserHead);
    assert_eq!(
        FetchMode::from_str("BROWSER_HEAD").unwrap(),
        FetchMode::BrowserHead
    );
    assert_eq!(FetchMode::from_str("HEAD").unwrap(), FetchMode::BrowserHead);

    assert_eq!(
        FetchMode::from_str("browser_headless").unwrap(),
        FetchMode::BrowserHeadless
    );
    assert_eq!(
        FetchMode::from_str("headless").unwrap(),
        FetchMode::BrowserHeadless
    );
    assert_eq!(
        FetchMode::from_str("BROWSER_HEADLESS").unwrap(),
        FetchMode::BrowserHeadless
    );
    assert_eq!(
        FetchMode::from_str("HEADLESS").unwrap(),
        FetchMode::BrowserHeadless
    );

    assert_eq!(
        FetchMode::from_str("browser_head_external").unwrap(),
        FetchMode::BrowserHeadExternal
    );
    assert_eq!(
        FetchMode::from_str("external").unwrap(),
        FetchMode::BrowserHeadExternal
    );
    assert_eq!(
        FetchMode::from_str("BROWSER_HEAD_EXTERNAL").unwrap(),
        FetchMode::BrowserHeadExternal
    );
    assert_eq!(
        FetchMode::from_str("EXTERNAL").unwrap(),
        FetchMode::BrowserHeadExternal
    );

    // Test invalid modes
    assert!(FetchMode::from_str("invalid").is_err());
    assert!(FetchMode::from_str("").is_err());
    assert!(FetchMode::from_str("browser").is_err());
    assert!(FetchMode::from_str("request").is_err());
}

#[test]
fn fetcher_test_fetch_mode_partial_eq() {
    assert_eq!(FetchMode::PlainRequest, FetchMode::PlainRequest);
    assert_eq!(FetchMode::BrowserHead, FetchMode::BrowserHead);
    assert_eq!(FetchMode::BrowserHeadless, FetchMode::BrowserHeadless);
    assert_eq!(
        FetchMode::BrowserHeadExternal,
        FetchMode::BrowserHeadExternal
    );

    assert_ne!(FetchMode::PlainRequest, FetchMode::BrowserHead);
    assert_ne!(FetchMode::PlainRequest, FetchMode::BrowserHeadless);
    assert_ne!(FetchMode::PlainRequest, FetchMode::BrowserHeadExternal);
    assert_ne!(FetchMode::BrowserHead, FetchMode::BrowserHeadless);
    assert_ne!(FetchMode::BrowserHead, FetchMode::BrowserHeadExternal);
    assert_ne!(FetchMode::BrowserHeadless, FetchMode::BrowserHeadExternal);
}

#[test]
fn fetcher_test_fetch_mode_debug() {
    assert_eq!(format!("{:?}", FetchMode::PlainRequest), "PlainRequest");
    assert_eq!(format!("{:?}", FetchMode::BrowserHead), "BrowserHead");
    assert_eq!(
        format!("{:?}", FetchMode::BrowserHeadless),
        "BrowserHeadless"
    );
    assert_eq!(
        format!("{:?}", FetchMode::BrowserHeadExternal),
        "BrowserHeadExternal"
    );
}

#[test]
fn fetcher_test_fetch_mode_clone() {
    let mode1 = FetchMode::PlainRequest;
    let mode2 = mode1;
    assert_eq!(mode1, mode2);

    let mode3 = FetchMode::BrowserHead;
    let mode4 = mode3;
    assert_eq!(mode3, mode4);
}

#[test]
fn fetcher_test_fetch_mode_copy() {
    let mode1 = FetchMode::BrowserHeadless;
    let mode2 = mode1; // This should work because FetchMode is Copy
    assert_eq!(mode1, mode2);
}

#[test]
fn fetcher_test_fetch_mode_serialization() {
    // Test that FetchMode can be converted to string and back
    let modes = vec![
        FetchMode::PlainRequest,
        FetchMode::BrowserHead,
        FetchMode::BrowserHeadless,
        FetchMode::BrowserHeadExternal,
    ];

    for mode in modes {
        let mode_str = match mode {
            FetchMode::PlainRequest => "plain_request",
            FetchMode::BrowserHead => "browser_head",
            FetchMode::BrowserHeadless => "browser_headless",
            FetchMode::BrowserHeadExternal => "browser_head_external",
        };

        let parsed = FetchMode::from_str(mode_str).unwrap();
        assert_eq!(mode, parsed);
    }
}

#[test]
fn fetch_mode_errors_and_result_mode() {
    match FetchMode::from_str("Warp") {
        Err(e) => assert_eq!(e.to_string(), "Invalid mode: Warp"),
        Ok(_) => panic!("unknown mode accepted"),
    }
    assert_eq!(FetchMode::PlainRequest.effective_for_results(), FetchMode::PlainRequest);
    assert_eq!(FetchMode::BrowserHead.effective_for_results(), FetchMode::BrowserHeadless);
    assert_eq!(FetchMode::BrowserHeadExternal.effective_for_results(), FetchMode::BrowserHeadless);
}
