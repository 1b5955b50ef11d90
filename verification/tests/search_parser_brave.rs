use tarzi::search::parser::brave::{BraveParser, EmbeddedScan};
use tarzi::search::parser::brave_js::fix_js_object;
use tarzi::search::types::SearchEngineType;

#[test]
fn test_brave_parser_article_structure() {
    let parser = BraveParser::new();
    let html = r#"
    <html>
        <body>
            <article>
                <h3><a href="https://example1.com">Brave Test Result 1</a></h3>
                <p>This is a test snippet for Brave 1</p>
            </article>
            <article>
                <h3><a href="https://example2.com">Brave Test Result 2</a></h3>
                <p>This is a test snippet for Brave 2</p>
            </article>
            <article>
                <h3><a href="https://example3.com">Brave Test Result 3</a></h3>
                <p>This is a test snippet for Brave 3</p>
            </article>
        </body>
    </html>
    "#;
    let results = parser.parse(html, 2).unwrap();

    assert_eq!(results.len(), 2);
    assert_eq!(parser.name(), "BraveParser");
    assert!(parser.supports(&SearchEngineType::BraveSearch));
    assert!(!parser.supports(&SearchEngineType::Google));

    assert_eq!(results[0].title, "Brave Test Result 1");
    assert_eq!(results[0].url, "https://example1.com");
    assert_eq!(results[0].snippet, "This is a test snippet for Brave 1");
    assert_eq!(results[0].rank, 1);

    assert_eq!(results[1].title, "Brave Test Result 2");
    assert_eq!(results[1].url, "https://example2.com");
    assert_eq!(results[1].snippet, "This is a test snippet for Brave 2");
    assert_eq!(results[1].rank, 2);
}

#[test]
fn test_brave_parser_result_class() {
    let parser = BraveParser::new();
    let html = r#"
    <html>
        <body>
            <div class="result">
                <h2><a href="https://example1.com">Test Result 1</a></h2>
                <div class="snippet">This is snippet 1</div>
            </div>
            <div class="result">
                <h2><a href="https://example2.com">Test Result 2</a></h2>
                <div class="description">This is snippet 2</div>
            </div>
        </body>
    </html>
    "#;
    let results = parser.parse(html, 3).unwrap();

    assert_eq!(results.len(), 2);
    assert_eq!(results[0].title, "Test Result 1");
    assert_eq!(results[0].url, "https://example1.com");
    assert_eq!(results[0].snippet, "This is snippet 1");
    assert_eq!(results[0].rank, 1);

    assert_eq!(results[1].title, "Test Result 2");
    assert_eq!(results[1].url, "https://example2.com");
    assert_eq!(results[1].snippet, "This is snippet 2");
    assert_eq!(results[1].rank, 2);
}

#[test]
fn test_brave_parser_original_structure() {
    let parser = BraveParser::new();
    let html = r#"
    <html>
        <body>
            <div class="result-row">
                <a href="https://example1.com">Brave Test Result 1</a>
                <div class="result-snippet">This is a test snippet for Brave 1</div>
            </div>
            <div class="result-row">
                <a href="https://example2.com">Brave Test Result 2</a>
                <div class="result-snippet">This is a test snippet for Brave 2</div>
            </div>
        </body>
    </html>
    "#;
    let results = parser.parse(html, 2).unwrap();

    assert_eq!(results.len(), 2);
    assert_eq!(results[0].title, "Brave Test Result 1");
    assert_eq!(results[0].url, "https://example1.com");
    assert_eq!(results[0].snippet, "This is a test snippet for Brave 1");
    assert_eq!(results[0].rank, 1);
}

#[test]
fn test_brave_parser_empty_and_edge_cases() {
    let parser = BraveParser::new();

    // Test empty HTML
    let results = parser.parse("", 5).unwrap();
    assert!(results.is_empty());

    // Test zero limit
    let html = r#"<html><body><div class="result-row"><a href="https://example.com">Test</a></div></body></html>"#;
    let results = parser.parse(html, 0).unwrap();
    assert!(results.is_empty());
}

#[test]
fn test_brave_parser_url_normalization() {
    let parser = BraveParser::new();
    let html = r#"
    <html>
        <body>
            <div class="result-row">
                <a href="/relative/path">Relative URL</a>
                <div class="result-snippet">Relative snippet</div>
            </div>
            <div class="result-row">
                <a href="//protocol-relative.com">Protocol-relative</a>
                <div class="result-snippet">Protocol snippet</div>
            </div>
        </body>
    </html>
    "#;
    let results = parser.parse(html, 10).unwrap();
    assert_eq!(results.len(), 2);
    assert_eq!(results[0].url, "https://search.brave.com/relative/path");
    assert_eq!(results[1].url, "https://protocol-relative.com");
}

#[test]
fn test_brave_parser_missing_elements() {
    let parser = BraveParser::new();
    let html = r#"
    <html>
        <body>
            <div class="result-row">
                <a>No href attribute</a>
            </div>
            <div class="result-row">
                <a href="">Empty href</a>
            </div>
            <div class="result-row">
                <a href="https://good.com">Good result</a>
                <div class="result-snippet">Good snippet</div>
            </div>
        </body>
    </html>
    "#;
    let results = parser.parse(html, 10).unwrap();
    assert_eq!(results.len(), 1); // Only the good result
    assert_eq!(results[0].url, "https://good.com");
    assert_eq!(results[0].title, "Good result");
    assert_eq!(results[0].snippet, "Good snippet");
}

#[test]
fn test_brave_parser_limit_enforcement() {
    let parser = BraveParser::new();
    let html = r#"
    <html>
        <body>
            <div class="result-row">
                <a href="https://example1.com">Result 1</a>
            </div>
            <div class="result-row">
                <a href="https://example2.com">Result 2</a>
            </div>
            <div class="result-row">
                <a href="https://example3.com">Result 3</a>
            </div>
        </body>
    </html>
    "#;
    let results = parser.parse(html, 2).unwrap();
    assert_eq!(results.len(), 2);
    assert_eq!(results[0].rank, 1);
    assert_eq!(results[1].rank, 2);
}

#[test]
fn brave_injected_script_results() {
    let parser = BraveParser::new();
    let html = r#"<html><body><script id="tarzi-brave-results" type="application/json">{"results":[{"title":"A","url":"https://a.com","description":"x &amp; y \u003Cstrong\u003Eb\u003C/strong\u003E"},{"title":"B"},{"title":"C","url":"https://c.com","snippet":"s &quot;q&quot;"}]}</script></body></html>"#;
    let results = parser.parse(html, 10).unwrap();
    assert_eq!(results.len(), 2);
    assert_eq!(results[0].title, "A");
    assert_eq!(results[0].url, "https://a.com");
    assert_eq!(results[0].snippet, "x & y <strong>b</strong>");
    assert_eq!(results[0].rank, 1);
    assert_eq!(results[1].title, "C");
    assert_eq!(results[1].snippet, "s \"q\"");
    assert_eq!(results[1].rank, 2);
}

#[test]
fn brave_json_rank_counts_skipped_entries() {
    let parser = BraveParser::new();
    let html = r#"<script id="tarzi-brave-results" type="application/json">{"results":[{"title":"","url":"https://a.com"},{"title":"B","url":"https://b.com"}]}</script>"#;
    let results = parser.parse(html, 10).unwrap();
    assert_eq!(results.len(), 1);
    assert_eq!(results[0].title, "B");
    assert_eq!(results[0].rank, 2);
    let limited = parser.parse(html, 1).unwrap();
    assert!(limited.is_empty());
}

#[test]
fn brave_object_literal_result() {
    let parser = BraveParser::new();
    let html = r#"<div>{title:"Hello",url:"https://h.com",description:"d",ok:true}</div>"#;
    let results = parser.parse(html, 5).unwrap();
    assert_eq!(results.len(), 1);
    assert_eq!(results[0].title, "Hello");
    assert_eq!(results[0].url, "https://h.com");
    assert_eq!(results[0].snippet, "d");
    assert_eq!(results[0].rank, 1);
}

#[test]
fn brave_array_pattern_finds_nothing_without_nested_array() {
    let parser = BraveParser::new();
    let html = r#"<script>var r = [{"title":"T","url":"https://t.com"}];</script>"#;
    let results = parser.parse(html, 5).unwrap();
    assert!(results.is_empty());
}

#[test]
fn brave_checked_parse_reports_split_character() {
    let parser = BraveParser::new();
    let html = "{title:\"\u{4e2d}\u{4e2d}\"}";
    assert!(matches!(parser.scan_embedded(html), EmbeddedScan::Panics));
    assert!(parser.parse_checked(html, 5).is_none());
    let fine = parser.parse_checked("<article><h3><a href=\"/x\">X</a></h3></article>", 5).unwrap().unwrap();
    assert_eq!(fine.len(), 1);
    assert_eq!(fine[0].url, "https://search.brave.com/x");
}

#[test]
fn brave_scan_helpers() {
    let parser = BraveParser::new();
    assert_eq!(parser.normalize_url("http://a"), "http://a");
    assert_eq!(parser.normalize_url("//b.com"), "https://b.com");
    assert_eq!(parser.normalize_url("/c"), "https://search.brave.com/c");
    assert_eq!(parser.normalize_url("d"), "d");
    assert_eq!(parser.find_single_object_end("x{a{b}\"}\"}", 1), Some(9));
    assert_eq!(parser.find_single_object_end("{a", 0), None);
    assert_eq!(parser.find_json_end("[[1]]", 1), Some(3));
    assert_eq!(parser.find_json_end("[1]", 1), None);
    assert_eq!(parser.find_array_start("ab[cd[ef", 7), Some(5));
    assert_eq!(parser.find_array_start("abc", 3), None);
}

#[test]
fn brave_js_object_to_json() {
    assert_eq!(
        fix_js_object(r#"{title:"A",url:"https://x",flag:true,none:void 0,gone:undefined}"#).unwrap(),
        r#"{"title":"A","url":"https://x","flag":true,"none":null,"gone":null}"#
    );
    // Space before the colon ends up in the kept prefix, as the conversion computes it.
    assert_eq!(fix_js_object("{a :1}").unwrap(), "{a\"a\":1}");
    // A wide space before the colon would be cut inside a character.
    assert!(fix_js_object("\u{3000}a\u{3000}:1").is_none());
}
