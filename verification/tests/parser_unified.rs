use tarzi::parser::engines::{SearchEngineType, SearchMode};
use tarzi::parser::{
    CustomParser, CustomParserConfig, ExaApiParser, GoogleApiParser, GoogleParser, GoogleSerperApiParser,
    ParserFactory, SearchResultParser, TravilyApiParser, UnifiedParser,
};

#[test]
fn test_custom_parser() {
    let parser = CustomParser::new("TestEngine".to_string());
    let html = "<html><body>Mock HTML content</body></html>";
    let results = parser.parse(html, 4).unwrap();

    assert_eq!(results.len(), 4);
    assert_eq!(parser.name(), "TestEngine");
    assert!(parser.supports(&SearchEngineType::Custom("TestEngine".to_string())));
    assert!(!parser.supports(&SearchEngineType::Custom("OtherEngine".to_string())));

    // Check that results contain engine name
    assert!(results[0].title.contains("TestEngine"));
}

#[test]
fn test_custom_parser_with_config() {
    let config = CustomParserConfig {
        result_container_selector: ".custom-result".to_string(),
        title_selector: ".custom-title".to_string(),
        url_selector: ".custom-url".to_string(),
        snippet_selector: ".custom-snippet".to_string(),
        custom_rules: std::collections::HashMap::new(),
    };

    let parser = CustomParser::with_config("CustomEngine".to_string(), config);
    let html = "<html><body>Mock HTML content</body></html>";
    let results = parser.parse(html, 2).unwrap();

    assert_eq!(results.len(), 2);
    assert!(results[0].snippet.contains(".custom-result"));
    assert!(results[0].snippet.contains(".custom-title"));
}

#[test]
fn custom_parser_mock_text_and_limits() {
    let parser = CustomParser::new("MyEngine".to_string());
    let results = parser.parse("ignored", 20).unwrap();
    assert_eq!(results.len(), 8);
    assert_eq!(results[0].title, "MyEngine Custom Search Result #1 - Mock Title");
    assert_eq!(results[0].url, "https://example-myengine-result-1.com");
    assert_eq!(results[7].rank, 8);
    assert_eq!(
        results[1].snippet,
        "This is a mock MyEngine search result snippet for result 2. Custom parser using selectors: container='.result', title='h3 a', url='cite', snippet='.snippet'."
    );
    assert!(parser.parse("x", 0).unwrap().is_empty());
}

#[test]
fn custom_parser_configuration_changes() {
    let mut parser = CustomParser::new("E".to_string());
    parser.set_selectors("div.r", "h2", "a.u", "p.s");
    parser.add_custom_rule("k".to_string(), "v".to_string());
    let cfg = parser.config();
    assert_eq!(cfg.result_container_selector, "div.r");
    assert_eq!(cfg.title_selector, "h2");
    assert_eq!(cfg.url_selector, "a.u");
    assert_eq!(cfg.snippet_selector, "p.s");
    assert_eq!(cfg.custom_rules.get("k"), Some(&"v".to_string()));
    let defaults = CustomParserConfig::default();
    assert_eq!(defaults.title_selector, "h3 a");
    assert!(defaults.custom_rules.is_empty());
}

#[test]
fn api_parsers_read_listed_results() {
    let exa = ExaApiParser::new();
    let body = r#"{"results":[{"title":"A","url":"https://a","text":"ta"},{"title":"B"},{"url":"https://c"}]}"#;
    let r = exa.parse(body, 2).unwrap();
    assert_eq!(r.len(), 2);
    assert_eq!(r[0].title, "A");
    assert_eq!(r[0].snippet, "ta");
    assert_eq!(r[0].rank, 0);
    assert_eq!(r[1].title, "B");
    assert_eq!(r[1].url, "");
    assert_eq!(r[1].rank, 1);
    assert!(exa.parse("not json", 5).is_err());
    assert!(exa.parse("{}", 5).unwrap().is_empty());

    let travily = TravilyApiParser::new();
    let t = travily.parse(r#"{"results":[{"title":"T","url":"u","content":"c"}]}"#, 5).unwrap();
    assert_eq!(t[0].snippet, "c");
    assert_eq!(travily.name(), "TravilyApiParser");
    assert!(travily.supports(&SearchEngineType::Travily));
    assert!(!travily.supports(&SearchEngineType::Exa));

    let google = GoogleApiParser::new();
    let g = google.parse(r#"{"organic":[{"title":"G","link":"https://g","snippet":"s"}]}"#, 5).unwrap();
    assert_eq!(g[0].url, "https://g");
    assert_eq!(g[0].rank, 0);
    let serper = GoogleSerperApiParser::new();
    assert_eq!(serper.name(), "GoogleSerperApiParser");
    assert!(serper.supports(&SearchEngineType::GoogleSerper));
}

#[test]
fn unified_google_web_parser() {
    let parser = GoogleParser::new();
    let html = r#"<html><body>
        <div class="tF2Cxc"><div class="yuRUbf"><a href="/url?q=x"> First </a></div><div class="IsZvec">one</div></div>
        <div class="tF2Cxc"><div class="yuRUbf"><a href="https://b.com"></a></div></div>
        <div class="tF2Cxc"><div class="yuRUbf"><a href="https://c.com">Third</a></div></div>
    </body></html>"#;
    let r = parser.parse(html, 3).unwrap();
    assert_eq!(r.len(), 2);
    assert_eq!(r[0].title, "First");
    assert_eq!(r[0].url, "https://www.google.com/url?q=x");
    assert_eq!(r[0].snippet, "one");
    assert_eq!(r[0].rank, 1);
    assert_eq!(r[1].title, "Third");
    assert_eq!(r[1].rank, 3);
    assert_eq!(parser.parse(html, 2).unwrap().len(), 1);
}

#[test]
fn factory_chooses_by_engine_and_mode() {
    let mut factory = ParserFactory::new();
    assert_eq!(factory.get_parser(&SearchEngineType::Google, SearchMode::WebQuery).name(), "GoogleParser");
    assert_eq!(factory.get_parser(&SearchEngineType::Google, SearchMode::ApiQuery).name(), "GoogleApiParser");
    assert_eq!(factory.get_parser(&SearchEngineType::Bing, SearchMode::WebQuery).name(), "BingParser");
    assert_eq!(factory.get_parser(&SearchEngineType::Bing, SearchMode::ApiQuery).name(), "BingApiFallback");
    assert_eq!(factory.get_parser(&SearchEngineType::Exa, SearchMode::WebQuery).name(), "ExaWebFallback");
    assert_eq!(factory.get_parser(&SearchEngineType::Exa, SearchMode::ApiQuery).name(), "ExaApiParser");
    assert_eq!(factory.get_parser(&SearchEngineType::Tavily, SearchMode::ApiQuery).name(), "TavilyParser");
    assert_eq!(factory.get_parser_legacy(&SearchEngineType::SearchApi).name(), "SearchApiParser");
    assert_eq!(factory.get_parser_legacy(&SearchEngineType::BraveSearch).name(), "BraveParser");
    factory.register_custom_parser("Mine".to_string(), Box::new(CustomParser::new("Mine".to_string())));
    let custom = factory.get_parser(&SearchEngineType::Custom("Mine".to_string()), SearchMode::WebQuery);
    assert_eq!(custom.name(), "Mine");
    assert!(custom.supports(&SearchEngineType::Custom("Mine".to_string())));
    let tavily = factory.get_parser_legacy(&SearchEngineType::Tavily);
    let mocks = tavily.parse("", 12).unwrap();
    assert_eq!(mocks.len(), 10);
    assert_eq!(mocks[9].url, "https://example-tavily-result-10.com");
    assert_eq!(mocks[0].title, "Tavily Search Result #1 - Mock Title");
}

#[test]
fn unified_parser_routes_by_content() {
    let unified = UnifiedParser::new(Box::new(GoogleParser::new()), Some(Box::new(ExaApiParser::new())));
    assert_eq!(unified.name(), "GoogleParser");
    assert!(unified.supports(&SearchEngineType::Google));
    assert!(unified.supports(&SearchEngineType::Exa));
    assert!(!unified.supports(&SearchEngineType::Bing));
    let from_json = unified.parse(r#"  {"results":[{"title":"J","url":"u"}]}"#, 5).unwrap();
    assert_eq!(from_json.len(), 1);
    assert_eq!(from_json[0].title, "J");
    assert!(unified.parse("<html></html>", 5).unwrap().is_empty());

    let web_only = UnifiedParser::web_only(Box::new(GoogleParser::new()));
    assert!(web_only.parse("{ not json either", 5).unwrap().is_empty());

    let api_only = UnifiedParser::api_only(Box::new(ExaApiParser::new()));
    assert_eq!(api_only.name(), "DummyWebParser");
    assert!(api_only.supports(&SearchEngineType::Custom("dummy".to_string())));
    assert!(api_only.parse("<p>html</p>", 5).unwrap().is_empty());
    assert!(api_only.parse("[1, 2]", 5).unwrap().is_empty());
    let from_api = api_only.parse(r#"{"results":[{"title":"A","url":"https://a","text":"t"}]}"#, 5).unwrap();
    assert_eq!(from_api.len(), 1);
    assert_eq!(from_api[0].url, "https://a");

    let page = r#"<div class="tF2Cxc"><div class="yuRUbf"><a href="/path">Web</a></div></div>"#;
    let from_web = web_only.parse(page, 5).unwrap();
    assert_eq!(from_web.len(), 1);
    assert_eq!(from_web[0].url, "https://www.google.com/path");
    assert_eq!(web_only.name(), "GoogleParser");
    assert!(web_only.supports(&SearchEngineType::Google));
    assert!(!web_only.supports(&SearchEngineType::Exa));
}

#[test]
fn test_parser_factory() {
    let factory = ParserFactory::new();

    // Test all built-in parsers
    let bing_parser = factory.get_parser_legacy(&SearchEngineType::Bing);
    assert_eq!(bing_parser.name(), "BingParser");

    let google_parser = factory.get_parser_legacy(&SearchEngineType::Google);
    assert_eq!(google_parser.name(), "GoogleParser");

    let duckduckgo_parser = factory.get_parser_legacy(&SearchEngineType::DuckDuckGo);
    assert_eq!(duckduckgo_parser.name(), "DuckDuckGoParser");

    let brave_parser = factory.get_parser_legacy(&SearchEngineType::BraveSearch);
    assert_eq!(brave_parser.name(), "BraveParser");

    let tavily_parser = factory.get_parser_legacy(&SearchEngineType::Tavily);
    assert_eq!(tavily_parser.name(), "TavilyParser");

    let searchapi_parser = factory.get_parser_legacy(&SearchEngineType::SearchApi);
    assert_eq!(searchapi_parser.name(), "SearchApiParser");

    let custom_parser = factory.get_parser_legacy(&SearchEngineType::Custom("TestCustom".to_string()));
    assert_eq!(custom_parser.name(), "TestCustom");
}

#[test]
fn test_parser_factory_with_custom_parser() {
    let mut factory = ParserFactory::new();

    // Register a custom parser
    let custom_parser = Box::new(CustomParser::new("MyCustomEngine".to_string()));
    factory.register_custom_parser("MyCustomEngine".to_string(), custom_parser);

    // Test that we can get the custom parser
    let parser = factory.get_parser_legacy(&SearchEngineType::Custom("MyCustomEngine".to_string()));
    assert_eq!(parser.name(), "MyCustomEngine");
}

#[test]
fn test_all_parsers_with_different_limits() {
    let factory = ParserFactory::new();
    let html = "<html><body>Test content</body></html>";

    let test_cases = vec![
        (SearchEngineType::Bing, "BingParser"),
        (SearchEngineType::Google, "GoogleParser"),
        (SearchEngineType::DuckDuckGo, "DuckDuckGoParser"),
        (SearchEngineType::BraveSearch, "BraveParser"),
        (SearchEngineType::Tavily, "TavilyParser"),
        (SearchEngineType::SearchApi, "SearchApiParser"),
    ];

    for (engine_type, expected_name) in test_cases {
        let parser = factory.get_parser_legacy(&engine_type);
        assert_eq!(parser.name(), expected_name);

        // Test with different limits
        for limit in [1, 5, 10] {
            let results = parser.parse(html, limit).unwrap();
            assert!(results.len() <= limit);
            assert!(results.len() <= 10); // All our mock parsers limit to 10

            // Verify ranking is correct
            for (i, result) in results.iter().enumerate() {
                assert_eq!(result.rank, i + 1);
            }
        }
    }
}
