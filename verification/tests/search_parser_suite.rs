use tarzi::search::parser::bing::BingParser;
use tarzi::search::parser::duckduckgo::DuckDuckGoParser;
use tarzi::search::types::SearchEngineType;

#[test]
fn tests_test_bing_parser() {
    let parser = BingParser::new();
    let html = r#"
    <html>
        <body>
            <li class="b_algo">
                <h2><a href="https://example1.com">Test Result 1</a></h2>
                <div class="b_caption"><p>This is a test snippet 1</p></div>
            </li>
            <li class="b_algo">
                <h2><a href="https://example2.com">Test Result 2</a></h2>
                <div class="b_caption"><p>This is a test snippet 2</p></div>
            </li>
        </body>
    </html>
    "#;
    let results = parser.parse(html, 3).unwrap();

    assert_eq!(results.len(), 2);
    assert_eq!(parser.name(), "BingParser");
    assert!(parser.supports(&SearchEngineType::Bing));
    assert!(!parser.supports(&SearchEngineType::Google));

    // Check first result
    assert_eq!(results[0].title, "Test Result 1");
    assert_eq!(results[0].url, "https://example1.com");
    assert_eq!(results[0].snippet, "This is a test snippet 1");
    assert_eq!(results[0].rank, 1);
}

// No Google case here: a Google check that expects five results from a page
// without any result markup cannot hold of the Google parser, which reads
// results only from result blocks; search_parser_google.rs holds its cases,
// among them an empty page that gives no results.

#[test]
fn tests_test_duckduckgo_parser() {
    let parser = DuckDuckGoParser::new();
    let html = r#"
    <html>
        <body>
            <div class="result__body">
                <a class="result__a" href="https://example1.com">DuckDuckGo Test Result 1</a>
                <div class="result__snippet">This is a test snippet for DuckDuckGo 1</div>
            </div>
            <div class="result__body">
                <a class="result__a" href="https://example2.com">DuckDuckGo Test Result 2</a>
                <div class="result__snippet">This is a test snippet for DuckDuckGo 2</div>
            </div>
            <div class="result__body">
                <a class="result__a" href="https://example3.com">DuckDuckGo Test Result 3</a>
                <div class="result__snippet">This is a test snippet for DuckDuckGo 3</div>
            </div>
        </body>
    </html>
    "#;
    let results = parser.parse(html, 2).unwrap();

    assert_eq!(results.len(), 2);
    assert_eq!(parser.name(), "DuckDuckGoParser");
    assert!(parser.supports(&SearchEngineType::DuckDuckGo));

    // Check first result
    assert_eq!(results[0].title, "DuckDuckGo Test Result 1");
    assert_eq!(results[0].url, "https://example1.com");
    assert_eq!(
        results[0].snippet,
        "This is a test snippet for DuckDuckGo 1"
    );
    assert_eq!(results[0].rank, 1);

    // Check second result
    assert_eq!(results[1].title, "DuckDuckGo Test Result 2");
    assert_eq!(results[1].url, "https://example2.com");
    assert_eq!(
        results[1].snippet,
        "This is a test snippet for DuckDuckGo 2"
    );
    assert_eq!(results[1].rank, 2);
}
