use std::str::FromStr;
use tarzi::config::Config;
use tarzi::json::JsonValue;
use tarzi::parser::engines::SearchEngineType;
use tarzi::search::api::{
    engine_debug_text, parse_brave_response, parse_exa_response, parse_serper_response, parse_travily_response,
    configured_services, ApiEvent, ApiSearchManager, ApiService, ApiStep, AutoSwitchStrategy,
};
use tarzi::search::engine::{browser_failure, is_network_error, should_retry, SearchSettings, MAX_RETRIES};
use tarzi::search::types::SearchEngineType as WebEngine;
use tarzi::search::SearchMode;
use tarzi::urls::request_url_check;
use tarzi::TarziError;

#[test]
fn autoswitch_strategy_from_names() {
    assert_eq!(AutoSwitchStrategy::from("smart"), AutoSwitchStrategy::Smart);
    assert_eq!(AutoSwitchStrategy::from("NONE"), AutoSwitchStrategy::NoSwitch);
    assert_eq!(AutoSwitchStrategy::from("whatever"), AutoSwitchStrategy::Smart);
}

#[test]
fn manager_plans_attempts() {
    let mut manager = ApiSearchManager::new(AutoSwitchStrategy::Smart);
    manager.register_provider(SearchEngineType::Exa);
    manager.register_provider(SearchEngineType::BraveSearch);
    manager.register_provider(SearchEngineType::Bing);
    manager.register_provider(SearchEngineType::Exa);
    assert!(manager.has_provider(&SearchEngineType::Bing));
    assert!(!manager.has_provider(&SearchEngineType::Google));
    assert_eq!(
        manager.attempt_order(&SearchEngineType::Bing),
        vec![SearchEngineType::Bing, SearchEngineType::BraveSearch, SearchEngineType::Exa]
    );
    assert_eq!(manager.attempt_order(&SearchEngineType::Exa), vec![SearchEngineType::Exa, SearchEngineType::BraveSearch]);
    assert_eq!(manager.attempt_order(&SearchEngineType::Google), vec![SearchEngineType::BraveSearch, SearchEngineType::Exa]);
    match manager.exhausted_error(&SearchEngineType::Bing, None) {
        TarziError::Config(m) => assert_eq!(m, "All search providers failed"),
        _ => panic!("wrong error"),
    }

    let mut strict = ApiSearchManager::new(AutoSwitchStrategy::NoSwitch);
    strict.register_provider(SearchEngineType::Exa);
    assert_eq!(strict.attempt_order(&SearchEngineType::Exa), vec![SearchEngineType::Exa]);
    assert!(strict.attempt_order(&SearchEngineType::Travily).is_empty());
    match strict.exhausted_error(&SearchEngineType::Travily, None) {
        TarziError::Config(m) => assert_eq!(m, "No provider registered for Travily"),
        _ => panic!("wrong error"),
    }
    match strict.exhausted_error(&SearchEngineType::Exa, Some(TarziError::Network("down".to_string()))) {
        TarziError::Network(m) => assert_eq!(m, "down"),
        _ => panic!("the provider's error stands"),
    }
    assert_eq!(engine_debug_text(&SearchEngineType::Custom("a\"b".to_string())), "Custom(\"a\\\"b\")");
}

#[test]
fn provider_responses_are_read() {
    let r = ApiService::Brave
        .results_from_body(
            r#"{"web":{"results":[{"title":"A","url":"https://a","description":"d"},{"title":"B","url":"https://b"}]}}"#,
        )
        .unwrap();
    assert_eq!(r.len(), 1);
    assert_eq!(r[0].snippet, "d");
    assert_eq!(r[0].rank, 1);
    assert!(ApiService::Brave.results_from_body("{}").unwrap().is_empty());

    let s = ApiService::Serper
        .results_from_body(r#"{"organic":[{"title":"x"},{"title":"S","link":"https://s","snippet":"sn"}]}"#)
        .unwrap();
    assert_eq!(s.len(), 1);
    assert_eq!(s[0].url, "https://s");
    assert_eq!(s[0].rank, 2);

    let long = "y".repeat(250);
    let e = ApiService::Exa
        .results_from_body(&format!(
            r#"{{"results":[{{"title":"E","url":"https://e"}},{{"title":"F","url":"https://f","text":"{long}"}}]}}"#
        ))
        .unwrap();
    assert_eq!(e.len(), 2);
    assert_eq!(e[0].snippet, "");
    assert_eq!(e[1].snippet.chars().count(), 200);

    let t = ApiService::Travily
        .results_from_body(r#"{"results":[{"title":"T","url":"https://t"},{"title":"U","url":"https://u","content":"ü"}]}"#)
        .unwrap();
    assert_eq!(t.len(), 1);
    assert_eq!(t[0].snippet, "ü");
    assert_eq!(t[0].rank, 2);

    match ApiService::Exa.results_from_body("not json") {
        Err(TarziError::Parse(m)) => assert!(m.starts_with("Failed to parse Exa API response: ")),
        _ => panic!("expected a parse error"),
    }
    match ApiService::Serper.request_error("timed out") {
        TarziError::Network(m) => assert_eq!(m, "Google Serper API request failed: timed out"),
        _ => panic!("expected a network error"),
    }
    match ApiService::Travily.status_error("500 Internal Server Error") {
        TarziError::Network(m) => assert_eq!(m, "Travily API returned status: 500 Internal Server Error"),
        _ => panic!("expected a network error"),
    }
    assert_eq!(ApiService::Brave.provider_name(), "Brave Search API");
}

#[test]
fn provider_responses_from_values() {
    let entry = |title: &str, link: &str, snippet: Option<&str>| {
        let mut members = vec![
            ("title".to_string(), JsonValue::Str(title.to_string())),
            ("link".to_string(), JsonValue::Str(link.to_string())),
        ];
        if let Some(s) = snippet {
            members.push(("snippet".to_string(), JsonValue::Str(s.to_string())));
        }
        JsonValue::Object(members)
    };
    let data = JsonValue::Object(vec![(
        "organic".to_string(),
        JsonValue::Array(vec![entry("a", "https://a", None), entry("b", "https://b", Some("sb"))]),
    )]);
    let r = parse_serper_response(&data);
    assert_eq!(r.len(), 1);
    assert_eq!(r[0].title, "b");
    assert_eq!(r[0].rank, 2);
    assert!(parse_brave_response(&data).is_empty());
    assert!(parse_exa_response(&JsonValue::Null).is_empty());
    assert!(parse_travily_response(&JsonValue::Array(Vec::new())).is_empty());
}

#[test]
fn search_modes_and_settings() {
    assert_eq!(SearchMode::from_str("Browser").unwrap(), SearchMode::Browser);
    assert_eq!(SearchMode::from_str("api").unwrap(), SearchMode::Api);
    assert!(SearchMode::from_str("web").is_err());

    let settings = SearchSettings::new();
    assert_eq!(settings.engine_type, WebEngine::DuckDuckGo);
    assert_eq!(settings.search_url("a b&c"), "https://duckduckgo.com/?q=a%20b%26c");

    let mut config = Config::new();
    config.search.engine = "google".to_string();
    config.search.query_pattern = "custom pattern {query} {query}".to_string();
    let custom = SearchSettings::from_config(&config);
    assert_eq!(custom.engine_type, WebEngine::Google);
    assert_eq!(custom.query_pattern, "custom pattern {query} {query}");
    assert_eq!(custom.search_url("é"), "custom pattern %C3%A9 %C3%A9");

    config.search.engine = "nope".to_string();
    config.search.query_pattern = tarzi::constants::DEFAULT_QUERY_PATTERN.to_string();
    let fallback = SearchSettings::from_config(&config);
    assert_eq!(fallback.engine_type, WebEngine::DuckDuckGo);
    assert_eq!(fallback.query_pattern, tarzi::constants::DUCKDUCKGO_QUERY_PATTERN);

    let page = "<div class=\"b_algo\"><h2><a href=\"https://x.com\">X</a></h2></div>";
    let bing = SearchSettings::from_config(&Config::new());
    assert_eq!(bing.engine_type, WebEngine::Bing);
    let results = bing.extract_search_results_from_html(page, 5).unwrap();
    assert_eq!(results.len(), 1);
}

#[test]
fn retry_decisions() {
    assert!(is_network_error("a network hiccup"));
    assert!(is_network_error("nssFailure 2"));
    assert!(!is_network_error("bad gateway"));
    let e = TarziError::Browser("connection reset".to_string());
    assert!(should_retry(&e, 1));
    assert!(should_retry(&e, 2));
    assert!(!should_retry(&e, MAX_RETRIES));
    assert!(!should_retry(&TarziError::Url("invalid".to_string()), 1));
    match browser_failure(&TarziError::Browser("boom".to_string())) {
        TarziError::Search(m) => assert_eq!(m, "Browser mode failed: Browser automation error: boom"),
        _ => panic!("wrong error"),
    }
}

#[test]
fn test_search_engine_from_config() {
    // Test creating the search settings from config
    let mut config = Config::new();
    config.search.engine = tarzi::constants::SEARCH_ENGINE_GOOGLE.to_string();
    config.search.query_pattern = "custom pattern".to_string();

    let engine = SearchSettings::from_config(&config);
    assert_eq!(engine.engine_type, WebEngine::Google);
    assert_eq!(engine.query_pattern, "custom pattern");
}

#[test]
fn services_follow_the_configured_keys() {
    let mut config = Config::new();
    assert!(configured_services(&config).is_empty());
    config.search.exa_api_key = Some("e".to_string());
    config.search.brave_api_key = Some("b".to_string());
    let services = configured_services(&config);
    assert_eq!(services.len(), 2);
    assert_eq!(services[0].0, SearchEngineType::BraveSearch);
    assert_eq!(services[0].1, ApiService::Brave);
    assert_eq!(services[0].2, "b");
    assert_eq!(services[1].0, SearchEngineType::Exa);
    assert_eq!(services[1].2, "e");
}

#[test]
fn api_search_steps() {
    let mut manager = ApiSearchManager::new(AutoSwitchStrategy::Smart);
    manager.register_provider(SearchEngineType::Exa);
    manager.register_provider(SearchEngineType::BraveSearch);
    let primary = SearchEngineType::Exa;
    match manager.next_step(&primary, ApiEvent::Begin) {
        ApiStep::Try(0, e) => assert_eq!(e, SearchEngineType::Exa),
        _ => panic!("the primary engine first"),
    }
    match manager.next_step(&primary, ApiEvent::Answered(0, Err(TarziError::Network("down".to_string())))) {
        ApiStep::Try(1, e) => assert_eq!(e, SearchEngineType::BraveSearch),
        _ => panic!("then the fallback"),
    }
    match manager.next_step(&primary, ApiEvent::Answered(1, Ok(Vec::new()))) {
        ApiStep::Finish(Ok(v)) => assert!(v.is_empty()),
        _ => panic!("a success ends the search"),
    }
    match manager.next_step(&primary, ApiEvent::Answered(1, Err(TarziError::Network("down".to_string())))) {
        ApiStep::Finish(Err(TarziError::Config(m))) => assert_eq!(m, "All search providers failed"),
        _ => panic!("all failed"),
    }

    let strict = ApiSearchManager::new(AutoSwitchStrategy::NoSwitch);
    match strict.next_step(&SearchEngineType::Exa, ApiEvent::Begin) {
        ApiStep::Finish(Err(TarziError::Config(m))) => assert_eq!(m, "No provider registered for Exa"),
        _ => panic!("nothing to try"),
    }
}

#[test]
fn links_are_checked_before_a_request() {
    assert!(request_url_check("https://example.com/page").is_ok());
    match request_url_check("not a url") {
        Err(TarziError::Url(m)) => assert_eq!(m, "relative URL without a base"),
        _ => panic!("expected a URL error"),
    }
    match request_url_check("http://[::1") {
        Err(TarziError::Url(m)) => assert_eq!(m, "invalid IPv6 address"),
        _ => panic!("expected a URL error"),
    }
}
