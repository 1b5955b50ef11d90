use tarzi::config::Config;
use tarzi::fetcher::browser::{
    capability_kind, chrome_arguments, driver_start_order, external_endpoint, firefox_arguments, instance_ids,
    local_endpoint, managed_driver_config, next_endpoint_action, session_kind, BrowserKind, EndpointAction,
    EndpointEvent,
};
use tarzi::fetcher::driver::DriverType;
use tarzi::fetcher::external::{
    check_external_browser_prerequisites, external_connection_failure, external_connection_target, get_default_endpoint,
    webdriver_url_for,
};
use tarzi::fetcher::page::{missing_browser_error, next_page_action, PageAction, PageBrowser, PageEvent};
use tarzi::TarziError;

#[test]
fn test_get_driver_type_from_config() {
    // Test with no config
    assert_eq!(capability_kind(None).name(), "chrome");

    // Test with Firefox config
    let mut config = Config::default();
    config.fetcher.web_driver = "geckodriver".to_string();
    assert_eq!(capability_kind(Some(&config)).name(), "firefox");

    // Test with Chrome config
    config.fetcher.web_driver = "chromedriver".to_string();
    assert_eq!(capability_kind(Some(&config)).name(), "chrome");

    // Test with unknown driver type
    config.fetcher.web_driver = "unknown".to_string();
    assert_eq!(capability_kind(Some(&config)).name(), "chrome");
}

#[test]
fn test_driver_type_selection() {
    // Test with Firefox config
    let mut config = Config::default();
    config.fetcher.web_driver = "geckodriver".to_string();
    let order = driver_start_order(Some(&config));
    let (primary, fallback) = (order[0].clone(), order[1].clone());

    assert_eq!(primary, DriverType::Firefox);
    assert_eq!(fallback, DriverType::Chrome);

    // Test with Chrome config
    config.fetcher.web_driver = "chromedriver".to_string();
    let order = driver_start_order(Some(&config));
    let (primary, fallback) = (order[0].clone(), order[1].clone());

    assert_eq!(primary, DriverType::Chrome);
    assert_eq!(fallback, DriverType::Firefox);
}

#[test]
fn test_configuration_behavior() {
    let firefox_config = {
        let mut config = Config::default();
        config.fetcher.web_driver = "firefox".to_string();
        config
    };

    assert_eq!(capability_kind(Some(&firefox_config)).name(), "firefox");
}

#[test]
fn test_external_webdriver_url_detection() {
    // Test with external URL
    let mut config = Config::default();
    config.fetcher.web_driver_url = Some("http://localhost:4444".to_string());
    assert!(config.fetcher.web_driver_url.is_some());
    assert_eq!(external_endpoint(Some(&config)), Some("http://localhost:4444".to_string()));

    // Test with empty URL (should use self-managed)
    config.fetcher.web_driver_url = Some("".to_string());
    let url = &config.fetcher.web_driver_url;
    assert!(url.is_some() && url.as_ref().unwrap().is_empty());
    assert_eq!(external_endpoint(Some(&config)), None);

    // Test with no URL (should use self-managed)
    config.fetcher.web_driver_url = None;
    assert!(config.fetcher.web_driver_url.is_none());
    assert_eq!(external_endpoint(Some(&config)), None);
}

#[test]
fn browser_session_kind_prefers_started_driver() {
    let mut config = Config::default();
    config.fetcher.web_driver = "chrome".to_string();
    assert_eq!(session_kind(Some(&DriverType::Firefox), Some(&config)), BrowserKind::Firefox);
    assert_eq!(session_kind(Some(&DriverType::Generic("x".to_string())), None), BrowserKind::Chrome);
    assert_eq!(session_kind(None, Some(&config)), BrowserKind::Chrome);
    // The default configuration names GeckoDriver.
    assert_eq!(session_kind(None, Some(&Config::default())), BrowserKind::Firefox);
}

#[test]
fn browser_launch_arguments() {
    assert_eq!(
        chrome_arguments(true, None, None),
        vec!["--headless", "--disable-gpu", "--disable-dev-shm-usage", "--no-sandbox"]
    );
    assert_eq!(
        chrome_arguments(false, Some("/tmp/profile"), Some("http://proxy.example.com:8080")),
        vec![
            "--user-data-dir=/tmp/profile",
            "--disable-gpu",
            "--disable-dev-shm-usage",
            "--no-sandbox",
            "--proxy-server=http://proxy.example.com:8080",
        ]
    );
    assert_eq!(
        chrome_arguments(false, None, Some("")),
        vec!["--disable-gpu", "--disable-dev-shm-usage", "--no-sandbox"]
    );
    assert_eq!(firefox_arguments(true, Some("/p")), vec!["--headless", "--profile=/p"]);
    assert!(firefox_arguments(false, None).is_empty());
}

#[test]
fn browser_local_endpoint_and_managed_config() {
    assert_eq!(local_endpoint(None), "http://localhost:4444");
    let mut config = Config::default();
    assert_eq!(local_endpoint(Some(&config)), "http://localhost:4444");
    config.fetcher.web_driver = "chromedriver".to_string();
    assert_eq!(local_endpoint(Some(&config)), "http://localhost:9515");
    config.fetcher.web_driver = "opera".to_string();
    assert_eq!(local_endpoint(Some(&config)), "http://localhost:4444");

    let chrome = managed_driver_config(&DriverType::Chrome);
    assert_eq!(chrome.port, 9515);
    assert_eq!(chrome.args, vec!["--disable-gpu", "--no-sandbox", "--disable-dev-shm-usage"]);
    let firefox = managed_driver_config(&DriverType::Firefox);
    assert_eq!(firefox.port, 4444);
    assert_eq!(firefox.args, vec!["--log=warn"]);
    assert!(!firefox.verbose);
}

#[test]
fn browser_instance_names() {
    assert_eq!(instance_ids(None, 3), vec!["browser_0", "browser_1", "browser_2"]);
    assert_eq!(instance_ids(Some("worker"), 2), vec!["worker_0", "worker_1"]);
    assert!(instance_ids(Some("x"), 0).is_empty());
}

#[test]
fn browser_endpoint_with_external_url() {
    let mut config = Config::default();
    config.fetcher.web_driver_url = Some("http://remote:4444".to_string());
    match next_endpoint_action(Some(&config), &EndpointEvent::Begin) {
        EndpointAction::ProbeExternal(u) => assert_eq!(u, "http://remote:4444"),
        _ => panic!("expected an external probe"),
    }
    let up = EndpointEvent::ExternalProbed("http://remote:4444".to_string(), true);
    match next_endpoint_action(Some(&config), &up) {
        EndpointAction::Use(u) => assert_eq!(u, "http://remote:4444"),
        _ => panic!("expected the external endpoint"),
    }
    let down = EndpointEvent::ExternalProbed("http://remote:4444".to_string(), false);
    match next_endpoint_action(Some(&config), &down) {
        EndpointAction::Fail(TarziError::Browser(m)) => assert_eq!(
            m,
            "External WebDriver server is not available at configured URL: http://remote:4444. Please ensure the WebDriver server is running at this URL, or remove the web_driver_url configuration to use self-managed drivers."
        ),
        _ => panic!("expected a failure"),
    }
}

#[test]
fn browser_endpoint_self_managed() {
    let config = Config::default();
    match next_endpoint_action(Some(&config), &EndpointEvent::Begin) {
        EndpointAction::ProbeLocal(u) => assert_eq!(u, "http://localhost:4444"),
        _ => panic!("expected a local probe"),
    }
    let found = EndpointEvent::LocalProbed("http://localhost:4444".to_string(), true);
    match next_endpoint_action(Some(&config), &found) {
        EndpointAction::Use(u) => assert_eq!(u, "http://localhost:4444"),
        _ => panic!("expected the local endpoint"),
    }
    let none = EndpointEvent::LocalProbed("http://localhost:4444".to_string(), false);
    match next_endpoint_action(Some(&config), &none) {
        EndpointAction::Start(0, c) => assert_eq!(c.driver_type, DriverType::Firefox),
        _ => panic!("expected the first driver"),
    }
    match next_endpoint_action(Some(&config), &EndpointEvent::DriverStarted(0, None)) {
        EndpointAction::Start(1, c) => {
            assert_eq!(c.driver_type, DriverType::Chrome);
            assert_eq!(c.port, 9515);
        },
        _ => panic!("expected the second driver"),
    }
    let started = EndpointEvent::DriverStarted(1, Some("http://127.0.0.1:9515".to_string()));
    match next_endpoint_action(Some(&config), &started) {
        EndpointAction::Use(u) => assert_eq!(u, "http://127.0.0.1:9515"),
        _ => panic!("expected the started driver"),
    }
    match next_endpoint_action(Some(&config), &EndpointEvent::DriverStarted(1, None)) {
        EndpointAction::Fail(TarziError::Browser(m)) => {
            assert!(m.starts_with("No self-managed WebDriver could be started. Please either:\n1. Install ChromeDriver"));
            assert!(m.ends_with("to use an external WebDriver server"));
        },
        _ => panic!("expected a failure"),
    }
}

#[test]
fn page_reading_steps() {
    let url = "https://example.com";
    assert!(matches!(next_page_action(PageBrowser::Shared, url, &PageEvent::Begin), PageAction::Navigate));
    assert!(matches!(next_page_action(PageBrowser::Shared, url, &PageEvent::Navigated), PageAction::Wait(2)));
    assert!(matches!(next_page_action(PageBrowser::Instance, url, &PageEvent::Loaded), PageAction::ReadSource));
    match next_page_action(PageBrowser::Proxy, url, &PageEvent::SourceRead("<html></html>".to_string())) {
        PageAction::Done(c) => assert_eq!(c, "<html></html>"),
        _ => panic!("expected the source"),
    }
}

fn browser_message(a: PageAction) -> String {
    match a {
        PageAction::Fail(TarziError::Browser(m)) => m,
        _ => panic!("expected a browser error"),
    }
}

#[test]
fn page_reading_errors() {
    let url = "https://example.com";
    let failed = PageEvent::NavigationFailed("nssFailure2".to_string());
    assert_eq!(
        browser_message(next_page_action(PageBrowser::Shared, url, &failed)),
        "Network error while navigating to https://example.com: nssFailure2. This may be due to network connectivity issues, firewall restrictions, or the site being temporarily unavailable."
    );
    let refused = PageEvent::NavigationFailed("refused".to_string());
    assert_eq!(
        browser_message(next_page_action(PageBrowser::Shared, url, &refused)),
        "Failed to navigate to https://example.com: refused"
    );
    assert_eq!(browser_message(next_page_action(PageBrowser::Instance, url, &refused)), "Failed to navigate: refused");
    assert_eq!(
        browser_message(next_page_action(PageBrowser::Proxy, url, &refused)),
        "Failed to navigate with proxy: refused"
    );
    assert_eq!(
        browser_message(next_page_action(PageBrowser::Shared, url, &PageEvent::NavigationTimedOut)),
        "Timeout while navigating to https://example.com (30 seconds). The page may be slow to load or the site may be experiencing issues."
    );
    assert_eq!(
        browser_message(next_page_action(PageBrowser::Instance, url, &PageEvent::NavigationTimedOut)),
        "Timeout while navigating to URL"
    );
    let unreadable = PageEvent::SourceFailed("gone".to_string());
    assert_eq!(browser_message(next_page_action(PageBrowser::Shared, url, &unreadable)), "Failed to get content: gone");
    assert_eq!(
        browser_message(next_page_action(PageBrowser::Proxy, url, &unreadable)),
        "Failed to get content with proxy: gone"
    );
    assert_eq!(
        browser_message(next_page_action(PageBrowser::Instance, url, &PageEvent::SourceTimedOut)),
        "Timeout while extracting page content"
    );
    assert_eq!(
        browser_message(next_page_action(PageBrowser::Proxy, url, &PageEvent::SourceTimedOut)),
        "Timeout while extracting content with proxy"
    );
    match missing_browser_error(PageBrowser::Instance, "b1") {
        TarziError::Browser(m) => assert_eq!(m, "Browser instance b1 not found"),
        _ => panic!("expected a browser error"),
    }
    match missing_browser_error(PageBrowser::Proxy, "proxy_browser") {
        TarziError::Browser(m) => assert_eq!(m, "Failed to get proxy browser instance"),
        _ => panic!("expected a browser error"),
    }
}

#[test]
fn test_external_browser_prerequisites_check() {
    // Test valid WebSocket endpoints
    let valid_endpoints = vec!["ws://localhost:9222", "wss://localhost:9222", "ws://127.0.0.1:9222", "wss://example.com:9222"];

    for endpoint in valid_endpoints {
        assert!(check_external_browser_prerequisites(endpoint), "Endpoint {} should pass prerequisites check", endpoint);
    }

    // Test invalid endpoints
    let invalid_endpoints =
        vec!["http://localhost:9222", "https://localhost:9222", "invalid-endpoint", "ftp://localhost:9222", ""];

    for endpoint in invalid_endpoints {
        assert!(!check_external_browser_prerequisites(endpoint), "Endpoint {} should fail prerequisites check", endpoint);
    }
}

#[test]
fn external_browser_addresses() {
    assert_eq!(get_default_endpoint(None), "ws://localhost:9222");
    assert_eq!(get_default_endpoint(Some("ws://custom:9222".to_string())), "ws://custom:9222");
    assert_eq!(webdriver_url_for("ws://localhost:9222/ws"), "http://localhost:9222");
    assert_eq!(webdriver_url_for("wss://example.com:9222"), "https://example.com:9222");
    assert_eq!(webdriver_url_for("http://localhost:4444"), "http://localhost:4444");
    assert_eq!(external_connection_target("ws://h:1").unwrap(), "http://h:1");
    match external_connection_target("invalid-endpoint") {
        Err(TarziError::Browser(m)) => assert_eq!(m, "External browser prerequisites not met"),
        _ => panic!("expected the prerequisites error"),
    }
    match external_connection_failure(Some("refused")) {
        TarziError::Browser(m) => assert_eq!(m, "Failed to connect to external browser: refused"),
        _ => panic!("expected a browser error"),
    }
    match external_connection_failure(None) {
        TarziError::Browser(m) => assert_eq!(m, "Timeout while connecting to external browser"),
        _ => panic!("expected a browser error"),
    }
}
