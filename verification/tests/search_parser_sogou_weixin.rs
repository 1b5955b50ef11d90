use tarzi::search::parser::sogou_weixin::{
    extract_url_param, is_mp_weixin_url, is_sogou_weixin_redirect_url, normalize_url, resolve_weixin_url,
    SogouWeixinParser,
};
use tarzi::search::types::SearchEngineType;

#[test]
fn test_parse_empty_html_and_zero_limit() {
    let parser = SogouWeixinParser::new();
    let results = parser.parse("", 5).unwrap();
    assert!(results.is_empty());

    let html = "<html><body><a href=\"https://mp.weixin.qq.com/s/abc\">t</a></body></html>";
    let results_zero = parser.parse(html, 0).unwrap();
    assert!(results_zero.is_empty());
}

#[test]
fn test_parse_direct_mp_weixin_links() {
    let parser = SogouWeixinParser::new();
    let html = r#"
        <html><body>
            <div class="result">
                <a href="https://mp.weixin.qq.com/s/ABCDEFG">Article Title 1</a>
            </div>
            <div class="result">
                <a href="//mp.weixin.qq.com/s/HIJKLMN"><span>Article</span> Title 2</a>
            </div>
        </body></html>
    "#;

    let results = parser.parse(html, 10).unwrap();
    assert_eq!(results.len(), 2);
    assert!(results[0].url.contains("mp.weixin.qq.com"));
    assert!(results[1].url.contains("mp.weixin.qq.com"));
    assert_eq!(results[0].rank, 1);
    assert_eq!(results[1].rank, 2);
}

#[test]
fn test_parse_sogou_redirect_links() {
    let parser = SogouWeixinParser::new();
    // weixin.sogou.com/link?url=<encoded mp url>
    let encoded = urlencoding::encode("https://mp.weixin.qq.com/s/REDIRECTED");
    let html = format!(
        "<html><body><a href=\"https://weixin.sogou.com/link?url={encoded}\">Redirect</a></body></html>"
    );

    let results = parser.parse(&html, 5).unwrap();
    assert_eq!(results.len(), 1);
    assert!(results[0].url.contains("mp.weixin.qq.com/s/REDIRECTED"));
}

#[test]
fn test_dedup_and_limit() {
    let parser = SogouWeixinParser::new();
    let html = r#"
        <html><body>
            <a href="https://mp.weixin.qq.com/s/SAME">One</a>
            <a href="https://mp.weixin.qq.com/s/SAME">Duplicate</a>
            <a href="https://mp.weixin.qq.com/s/OTHER">Two</a>
            <a href="https://mp.weixin.qq.com/s/THREE">Three</a>
        </body></html>
    "#;

    let results = parser.parse(html, 2).unwrap();
    assert_eq!(results.len(), 2);
    assert_eq!(results[0].url, "https://mp.weixin.qq.com/s/SAME");
    assert_eq!(results[1].url, "https://mp.weixin.qq.com/s/OTHER");
    assert_eq!(results[0].rank, 1);
    assert_eq!(results[1].rank, 2);
}

#[test]
fn test_ignore_non_weixin_and_relative_links() {
    let parser = SogouWeixinParser::new();
    let html = r#"
        <html><body>
            <a href="/s/RELATIVE">Relative</a>
            <a href="https://weixin.qq.com/s/notmp">Weixin but not mp</a>
            <a href="javascript:void(0)">JS Link</a>
            <a href="mailto:test@example.com">Mail</a>
        </body></html>
    "#;

    let results = parser.parse(html, 10).unwrap();
    assert!(results.is_empty());
}

#[test]
fn test_dedup_between_redirect_and_direct() {
    let parser = SogouWeixinParser::new();
    let encoded = urlencoding::encode("https://mp.weixin.qq.com/s/SAME");
    let html = format!(
        r#"
        <html><body>
            <a href="https://weixin.sogou.com/link?url={encoded}">Via Redirect</a>
            <a href="https://mp.weixin.qq.com/s/SAME">Direct</a>
            <a href="//mp.weixin.qq.com/s/OTHER">Other</a>
        </body></html>
        "#
    );

    let results = parser.parse(&html, 10).unwrap();
    assert_eq!(results.len(), 2);
    assert_eq!(results[0].url, "https://mp.weixin.qq.com/s/SAME");
    assert_eq!(results[1].url, "https://mp.weixin.qq.com/s/OTHER");
    assert_eq!(results[0].rank, 1);
    assert_eq!(results[1].rank, 2);
}

#[test]
fn test_protocol_relative_and_title_trim() {
    let parser = SogouWeixinParser::new();
    let html = r#"
        <html><body>
            <a href="//mp.weixin.qq.com/s/PROTO">   Title With Spaces   </a>
        </body></html>
    "#;

    let results = parser.parse(html, 5).unwrap();
    assert_eq!(results.len(), 1);
    assert_eq!(results[0].url, "https://mp.weixin.qq.com/s/PROTO");
    assert_eq!(results[0].title, "Title With Spaces");
    assert_eq!(results[0].rank, 1);
}

#[test]
fn test_limit_applied_with_skipped_items() {
    let parser = SogouWeixinParser::new();
    let html = r#"
        <html><body>
            <a href="https://example.com/irrelevant">Ignore</a>
            <a href="https://mp.weixin.qq.com/s/A1">A1</a>
            <a href="https://not-weixin.example/a2">Ignore</a>
            <a href="https://mp.weixin.qq.com/s/A2">A2</a>
            <a href="https://mp.weixin.qq.com/s/A3">A3</a>
        </body></html>
    "#;

    let results = parser.parse(html, 2).unwrap();
    assert_eq!(results.len(), 2);
    assert_eq!(results[0].url, "https://mp.weixin.qq.com/s/A1");
    assert_eq!(results[1].url, "https://mp.weixin.qq.com/s/A2");
    assert_eq!(results[0].rank, 1);
    assert_eq!(results[1].rank, 2);
}

#[test]
fn test_captcha_detection() {
    let parser = SogouWeixinParser::new();

    // Test Chinese CAPTCHA page
    let captcha_html = r#"
        <html><body>
            <p class="p2">此验证码用于确认这些请求是您的正常行为而不是自动程序发出的，需要您协助验证。</p>
            <p class="p3"><label for="seccodeInput">验证码：</label></p>
        </body></html>
    "#;

    let result = parser.parse(captcha_html, 10);
    assert!(result.is_err());
    let error_msg = result.unwrap_err().to_string();
    assert!(error_msg.contains("CAPTCHA page"));
    assert!(error_msg.contains("anti-bot measure"));

    // Test VerifyCode detection
    let verify_html = r#"
        <html><body>
            <p>VerifyCode：2eb1fd17014e</p>
            <form name="authform">
                <input type="hidden" name="vc" id="vc" value="">
            </form>
        </body></html>
    "#;

    let result2 = parser.parse(verify_html, 10);
    assert!(result2.is_err());
    let error_msg2 = result2.unwrap_err().to_string();
    assert!(error_msg2.contains("CAPTCHA page"));
}

#[test]
fn test_helpers_normalize_and_resolve() {
    // normalize_url
    assert_eq!(
        normalize_url("https://mp.weixin.qq.com/s/A"),
        "https://mp.weixin.qq.com/s/A"
    );
    assert_eq!(
        normalize_url("//mp.weixin.qq.com/s/A"),
        "https://mp.weixin.qq.com/s/A"
    );
    assert_eq!(normalize_url("/s/B"), "/s/B"); // no host info, keep as-is

    // resolve_weixin_url for direct and redirect
    let direct = resolve_weixin_url("https://mp.weixin.qq.com/s/ABC");
    assert_eq!(direct, "https://mp.weixin.qq.com/s/ABC");

    let encoded = urlencoding::encode("https://mp.weixin.qq.com/s/XYZ");
    let redirected =
        resolve_weixin_url(&format!("https://weixin.sogou.com/link?url={encoded}"));
    assert_eq!(redirected, "https://mp.weixin.qq.com/s/XYZ");
}

#[test]
fn weixin_parser_identity() {
    let parser = SogouWeixinParser::new();
    assert_eq!(parser.name(), "SogouWeixinParser");
    assert!(parser.supports(&SearchEngineType::SougouWeixin));
    assert!(!parser.supports(&SearchEngineType::Bing));
}

#[test]
fn weixin_blank_page_is_empty_even_with_captcha_words_absent() {
    let parser = SogouWeixinParser::new();
    assert!(parser.parse("   \n\t ", 5).unwrap().is_empty());
    // A zero limit wins over the CAPTCHA check.
    assert!(parser.parse("VerifyCode", 0).unwrap().is_empty());
}

#[test]
fn weixin_data_attribute_links() {
    let parser = SogouWeixinParser::new();
    let html = r#"<html><body>
        <a data-share="" data-url="https://mp.weixin.qq.com/s/DATA">From data</a>
        <a data-link="https://example.com/x">Not an article</a>
        <a>No link at all</a>
    </body></html>"#;
    let results = parser.parse(html, 10).unwrap();
    assert_eq!(results.len(), 1);
    assert_eq!(results[0].url, "https://mp.weixin.qq.com/s/DATA");
    assert_eq!(results[0].title, "From data");
    assert_eq!(results[0].snippet, "");
}

#[test]
fn weixin_redirect_without_article_is_kept_as_redirect() {
    let parser = SogouWeixinParser::new();
    let html = r#"<a href="/link?url=https%3A%2F%2Fexample.com%2Fz&k=1">Redirect</a>"#;
    let results = parser.parse(html, 10).unwrap();
    assert_eq!(results.len(), 1);
    assert_eq!(results[0].url, "https://weixin.sogou.com/link?url=https%3A%2F%2Fexample.com%2Fz&k=1");
}

#[test]
fn weixin_url_helpers() {
    assert_eq!(normalize_url("/link?url=x"), "https://weixin.sogou.com/link?url=x");
    assert_eq!(normalize_url("/a/mp.weixin.qq.com/b"), "https://mp.weixin.qq.com/a/mp.weixin.qq.com/b");
    assert_eq!(normalize_url("/a/weixin.sogou.com"), "https://weixin.sogou.com/a/weixin.sogou.com");
    assert_eq!(normalize_url("ftp://x"), "ftp://x");
    assert!(is_mp_weixin_url("//mp.weixin.qq.com/s/A"));
    assert!(is_mp_weixin_url("http://mp.weixin.qq.com/s/A"));
    assert!(!is_mp_weixin_url("https://weixin.qq.com/s/A"));
    assert!(!is_mp_weixin_url("/s/A"));
    assert!(is_sogou_weixin_redirect_url("/link?url=1"));
    assert!(is_sogou_weixin_redirect_url("https://weixin.sogou.com/link?url=1"));
    assert!(!is_sogou_weixin_redirect_url("https://weixin.sogou.com/other"));
    assert_eq!(extract_url_param("a?b=1&url=x%20y&c=2"), Some("x y".to_string()));
    assert_eq!(extract_url_param("a?url=plain"), Some("plain".to_string()));
    assert_eq!(extract_url_param("nothing here"), None);
    assert_eq!(resolve_weixin_url("/link?url=https%3A%2F%2Fmp.weixin.qq.com%2Fs%2FR"), "https://mp.weixin.qq.com/s/R");
    assert_eq!(resolve_weixin_url("https://example.com/q"), "https://example.com/q");
}
