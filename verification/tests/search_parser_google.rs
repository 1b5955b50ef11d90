use tarzi::search::parser::google::GoogleParser;
use tarzi::search::types::SearchEngineType;

#[test]
fn google_test_google_parser() {
    let parser = GoogleParser::new();
    let html = r#"
    <html>
        <body>
            <div class="tF2Cxc">
                <div class="yuRUbf">
                    <a href="https://example1.com">Google Test Result 1</a>
                </div>
                <div class="IsZvec">This is a test snippet for Google 1</div>
            </div>
            <div class="tF2Cxc">
                <div class="yuRUbf">
                    <a href="https://example2.com">Google Test Result 2</a>
                </div>
                <div class="IsZvec">This is a test snippet for Google 2</div>
            </div>
            <div class="tF2Cxc">
                <div class="yuRUbf">
                    <a href="https://example3.com">Google Test Result 3</a>
                </div>
                <div class="IsZvec">This is a test snippet for Google 3</div>
            </div>
        </body>
    </html>
    "#;
    let results = parser.parse(html, 2).unwrap();

    assert_eq!(results.len(), 2);
    assert_eq!(parser.name(), "GoogleParser");
    assert!(parser.supports(&SearchEngineType::Google));
    assert!(!parser.supports(&SearchEngineType::Bing));

    assert_eq!(results[0].title, "Google Test Result 1");
    assert_eq!(results[0].url, "https://example1.com");
    assert_eq!(results[0].snippet, "This is a test snippet for Google 1");
    assert_eq!(results[0].rank, 1);

    assert_eq!(results[1].title, "Google Test Result 2");
    assert_eq!(results[1].url, "https://example2.com");
    assert_eq!(results[1].snippet, "This is a test snippet for Google 2");
    assert_eq!(results[1].rank, 2);
}

#[test]
fn test_google_parser_empty_and_limit() {
    let parser = GoogleParser::new();

    // Test empty HTML
    let results = parser.parse("", 5).unwrap();
    assert!(results.is_empty());

    // Test zero limit
    let html = r#"<html><body><div class="tF2Cxc"><div class="yuRUbf"><a href="https://example.com">Test</a></div></div></body></html>"#;
    let results = parser.parse(html, 0).unwrap();
    assert!(results.is_empty());
}

#[test]
fn test_google_parser_url_deduplication() {
    let parser = GoogleParser::new();
    let html = r#"
    <html>
        <body>
            <div class="tF2Cxc">
                <div class="yuRUbf">
                    <a href="https://example1.com">First occurrence</a>
                </div>
            </div>
            <div class="tF2Cxc">
                <div class="yuRUbf">
                    <a href="https://example1.com">Duplicate URL</a>
                </div>
            </div>
            <div class="tF2Cxc">
                <div class="yuRUbf">
                    <a href="https://example2.com">Different URL</a>
                </div>
            </div>
        </body>
    </html>
    "#;
    let results = parser.parse(html, 10).unwrap();
    assert_eq!(results.len(), 2); // Should deduplicate the first URL
    assert_eq!(results[0].url, "https://example1.com");
    assert_eq!(results[1].url, "https://example2.com");
}

#[test]
fn test_google_parser_url_normalization() {
    let parser = GoogleParser::new();
    let html = r#"
    <html>
        <body>
            <div class="tF2Cxc">
                <div class="yuRUbf">
                    <a href="/relative/path">Relative URL</a>
                </div>
            </div>
            <div class="tF2Cxc">
                <div class="yuRUbf">
                    <a href="//example.com/protocol-relative">Protocol-relative URL</a>
                </div>
            </div>
        </body>
    </html>
    "#;
    let results = parser.parse(html, 10).unwrap();
    assert_eq!(results.len(), 2);
    assert_eq!(results[0].url, "https://www.google.com/relative/path");
    assert_eq!(results[1].url, "https://example.com/protocol-relative");
}

#[test]
fn test_google_parser_fallback_selectors() {
    let parser = GoogleParser::new();
    let html = r#"
    <html>
        <body>
            <div class="g">
                <h3><a href="https://example1.com">Legacy Structure</a></h3>
                <div class="s">Legacy snippet</div>
            </div>
            <div class="rc">
                <h3><a href="https://example2.com">Another Legacy</a></h3>
                <div class="st">Another snippet</div>
            </div>
        </body>
    </html>
    "#;
    let results = parser.parse(html, 10).unwrap();
    assert_eq!(results.len(), 2);
    assert_eq!(results[0].title, "Legacy Structure");
    assert_eq!(results[1].title, "Another Legacy");
}

#[test]
fn test_google_parser_missing_title_or_url() {
    let parser = GoogleParser::new();
    let html = r#"
    <html>
        <body>
            <div class="tF2Cxc">
                <div class="yuRUbf">
                    <a>No href attribute</a>
                </div>
            </div>
            <div class="tF2Cxc">
                <div class="yuRUbf">
                    <a href="https://example.com"></a>
                </div>
            </div>
            <div class="tF2Cxc">
                <div class="yuRUbf">
                    <a href="https://good.com">Good result</a>
                </div>
            </div>
        </body>
    </html>
    "#;
    let results = parser.parse(html, 10).unwrap();
    assert_eq!(results.len(), 1); // Only the good result should be included
    assert_eq!(results[0].url, "https://good.com");
    assert_eq!(results[0].title, "Good result");
}
