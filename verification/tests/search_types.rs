use std::str::FromStr;
use tarzi::constants::{
    BAIDU_QUERY_PATTERN, BING_QUERY_PATTERN, BRAVE_QUERY_PATTERN, DUCKDUCKGO_QUERY_PATTERN, EXA_QUERY_PATTERN,
    GOOGLE_QUERY_PATTERN, SEARCH_ENGINE_BAIDU, SEARCH_ENGINE_BING, SEARCH_ENGINE_BRAVE, SEARCH_ENGINE_DUCKDUCKGO,
    SEARCH_ENGINE_EXA, SEARCH_ENGINE_GOOGLE, SEARCH_ENGINE_SOUGOU_WEIXIN, SOUGOU_WEIXIN_QUERY_PATTERN,
};
use tarzi::search::types::{SearchEngineType, SearchResult};

#[test]
fn types_test_search_engine_type_parsing() {
    // Test valid engine types
    assert_eq!(
        SearchEngineType::from_str(SEARCH_ENGINE_DUCKDUCKGO).unwrap(),
        SearchEngineType::DuckDuckGo
    );
    assert_eq!(
        SearchEngineType::from_str(SEARCH_ENGINE_GOOGLE).unwrap(),
        SearchEngineType::Google
    );
    assert_eq!(
        SearchEngineType::from_str(SEARCH_ENGINE_BING).unwrap(),
        SearchEngineType::Bing
    );
    assert_eq!(
        SearchEngineType::from_str(SEARCH_ENGINE_BRAVE).unwrap(),
        SearchEngineType::BraveSearch
    );
    assert_eq!(
        SearchEngineType::from_str(SEARCH_ENGINE_BAIDU).unwrap(),
        SearchEngineType::Baidu
    );
    assert_eq!(
        SearchEngineType::from_str(SEARCH_ENGINE_SOUGOU_WEIXIN).unwrap(),
        SearchEngineType::SougouWeixin
    );

    // Test invalid engine types
    assert!(SearchEngineType::from_str("invalid").is_err());
    assert!(SearchEngineType::from_str("").is_err());
    assert!(SearchEngineType::from_str("web").is_err());
    assert!(SearchEngineType::from_str("api").is_err());
}

#[test]
fn types_test_search_engine_type_partial_eq() {
    // Test equality
    assert_eq!(SearchEngineType::DuckDuckGo, SearchEngineType::DuckDuckGo);
    assert_eq!(SearchEngineType::Google, SearchEngineType::Google);
    assert_ne!(SearchEngineType::DuckDuckGo, SearchEngineType::Google);
    assert_ne!(SearchEngineType::Google, SearchEngineType::DuckDuckGo);
}

#[test]
fn types_test_search_engine_type_debug() {
    // Test debug formatting
    assert_eq!(format!("{:?}", SearchEngineType::DuckDuckGo), "DuckDuckGo");
    assert_eq!(format!("{:?}", SearchEngineType::Google), "Google");
}

#[test]
fn types_test_search_engine_type_clone() {
    // Test cloning
    let engine_type1 = SearchEngineType::DuckDuckGo;
    let engine_type2 = engine_type1;
    assert_eq!(engine_type1, engine_type2);
}

#[test]
fn types_test_search_engine_type_copy() {
    // Test that SearchEngineType can be copied
    let engine_type1 = SearchEngineType::DuckDuckGo;
    let engine_type2 = engine_type1; // This should work because SearchEngineType is Copy
    assert_eq!(engine_type1, engine_type2);
}

#[test]
fn types_test_query_patterns() {
    // Test that each engine type returns a valid query pattern
    assert_eq!(
        SearchEngineType::DuckDuckGo.get_query_pattern(),
        DUCKDUCKGO_QUERY_PATTERN
    );
    assert_eq!(
        SearchEngineType::Google.get_query_pattern(),
        GOOGLE_QUERY_PATTERN
    );
    assert_eq!(
        SearchEngineType::Bing.get_query_pattern(),
        BING_QUERY_PATTERN
    );
    assert_eq!(
        SearchEngineType::BraveSearch.get_query_pattern(),
        BRAVE_QUERY_PATTERN
    );
    assert_eq!(
        SearchEngineType::Baidu.get_query_pattern(),
        BAIDU_QUERY_PATTERN
    );
    assert_eq!(
        SearchEngineType::SougouWeixin.get_query_pattern(),
        SOUGOU_WEIXIN_QUERY_PATTERN
    );
}

#[test]
fn test_search_result_creation() {
    let result = SearchResult {
        title: "Test Title".to_string(),
        url: "https://example.com".to_string(),
        snippet: "Test snippet".to_string(),
        rank: 1,
    };

    assert_eq!(result.title, "Test Title");
    assert_eq!(result.url, "https://example.com");
    assert_eq!(result.snippet, "Test snippet");
    assert_eq!(result.rank, 1);
}

#[test]
fn tests_test_search_engine_type_parsing() {
    // Test valid engine types
    assert_eq!(
        SearchEngineType::from_str(SEARCH_ENGINE_DUCKDUCKGO).unwrap(),
        SearchEngineType::DuckDuckGo
    );
    assert_eq!(
        SearchEngineType::from_str(SEARCH_ENGINE_GOOGLE).unwrap(),
        SearchEngineType::Google
    );
    assert_eq!(
        SearchEngineType::from_str(SEARCH_ENGINE_BING).unwrap(),
        SearchEngineType::Bing
    );
    assert_eq!(
        SearchEngineType::from_str(SEARCH_ENGINE_BRAVE).unwrap(),
        SearchEngineType::BraveSearch
    );
    assert_eq!(
        SearchEngineType::from_str(SEARCH_ENGINE_BAIDU).unwrap(),
        SearchEngineType::Baidu
    );
    assert_eq!(
        SearchEngineType::from_str(SEARCH_ENGINE_EXA).unwrap(),
        SearchEngineType::Exa
    );

    // Test invalid engine types
    assert!(SearchEngineType::from_str("invalid").is_err());
    assert!(SearchEngineType::from_str("").is_err());
    assert!(SearchEngineType::from_str("web").is_err());
    assert!(SearchEngineType::from_str("api").is_err());
}

#[test]
fn tests_test_search_engine_type_partial_eq() {
    // Test equality
    assert_eq!(SearchEngineType::DuckDuckGo, SearchEngineType::DuckDuckGo);
    assert_eq!(SearchEngineType::Google, SearchEngineType::Google);
    assert_ne!(SearchEngineType::DuckDuckGo, SearchEngineType::Google);
    assert_ne!(SearchEngineType::Google, SearchEngineType::DuckDuckGo);
}

#[test]
fn tests_test_search_engine_type_debug() {
    // Test debug formatting
    assert_eq!(format!("{:?}", SearchEngineType::DuckDuckGo), "DuckDuckGo");
    assert_eq!(format!("{:?}", SearchEngineType::Google), "Google");
}

#[test]
fn tests_test_search_engine_type_clone() {
    // Test cloning
    let engine_type1 = SearchEngineType::DuckDuckGo;
    let engine_type2 = engine_type1.clone();
    assert_eq!(engine_type1, engine_type2);
}

#[test]
fn tests_test_search_engine_type_copy() {
    // Test that SearchEngineType can be copied
    let engine_type1 = SearchEngineType::DuckDuckGo;
    let engine_type2 = engine_type1; // This should work because SearchEngineType is Copy
    assert_eq!(engine_type1, engine_type2);
}

#[test]
fn tests_test_query_patterns() {
    // Test that each engine type returns a valid query pattern
    assert_eq!(
        SearchEngineType::DuckDuckGo.get_query_pattern(),
        DUCKDUCKGO_QUERY_PATTERN
    );
    assert_eq!(
        SearchEngineType::Google.get_query_pattern(),
        GOOGLE_QUERY_PATTERN
    );
    assert_eq!(
        SearchEngineType::Bing.get_query_pattern(),
        BING_QUERY_PATTERN
    );
    assert_eq!(
        SearchEngineType::BraveSearch.get_query_pattern(),
        BRAVE_QUERY_PATTERN
    );
    assert_eq!(
        SearchEngineType::Baidu.get_query_pattern(),
        BAIDU_QUERY_PATTERN
    );
    assert_eq!(SearchEngineType::Exa.get_query_pattern(), EXA_QUERY_PATTERN);
}

#[test]
fn engine_names_ignore_case() {
    assert_eq!(SearchEngineType::from_str("BiNg").unwrap(), SearchEngineType::Bing);
    assert_eq!(SearchEngineType::from_str("SOGOU_WEIXIN").unwrap(), SearchEngineType::SougouWeixin);
    match SearchEngineType::from_str("Yahoo") {
        Err(e) => assert_eq!(e.to_string(), "Invalid search engine: Yahoo"),
        Ok(_) => panic!("unknown engine accepted"),
    }
}
