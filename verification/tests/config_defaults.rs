use std::path::PathBuf;
use tarzi::config::{proxy_variable_names, select_proxy, Config};

#[test]
fn test_default_config() {
    let config = Config::new();

    assert_eq!(config.general.log_level, "info");
    assert_eq!(config.general.timeout, 30);
    assert_eq!(config.fetcher.mode, "browser_headless");
    assert_eq!(config.fetcher.format, "markdown");
    assert_eq!(
        config.fetcher.user_agent,
        tarzi::constants::DEFAULT_USER_AGENT
    );
    assert_eq!(config.fetcher.timeout, 30);
    assert_eq!(config.search.mode, "webquery");
    assert_eq!(config.search.engine, "bing");
    assert_eq!(
        config.search.query_pattern,
        "https://www.bing.com/search?q={query}"
    );
    assert_eq!(config.search.limit, 5);
    assert!(config.search.api_key.is_none());
}

#[test]
fn test_dev_config_path() {
    let dev_path = Config::get_dev_config_path();
    assert_eq!(dev_path, PathBuf::from("tarzi.toml"));
}

#[test]
fn proxy_choice_follows_variable_order() {
    assert_eq!(proxy_variable_names(), vec!["HTTPS_PROXY", "HTTP_PROXY", "https_proxy", "http_proxy"]);
    let config_proxy = Some("http://config-proxy:8080".to_string());
    assert_eq!(select_proxy(&vec![None, None, None, None], &None), None);
    assert_eq!(select_proxy(&vec![None, None, None, None], &config_proxy), config_proxy);
    let env = vec![None, Some("http://env-proxy:8080".to_string()), None, None];
    assert_eq!(select_proxy(&env, &config_proxy), Some("http://env-proxy:8080".to_string()));
    let env = vec![Some("http://https-proxy:8080".to_string()), Some("http://env-proxy:8080".to_string()), None, None];
    assert_eq!(select_proxy(&env, &config_proxy), Some("http://https-proxy:8080".to_string()));
    let env = vec![None, None, None, Some("http://lowercase-proxy:8080".to_string())];
    assert_eq!(select_proxy(&env, &config_proxy), Some("http://lowercase-proxy:8080".to_string()));
    let env = vec![None, Some(String::new()), None, None];
    assert_eq!(select_proxy(&env, &config_proxy), config_proxy);
}

#[test]
fn config_defaults_of_each_section() {
    let config = Config::default();
    assert_eq!(config.fetcher.web_driver, "geckodriver");
    assert_eq!(config.fetcher.proxy, None);
    assert_eq!(config.fetcher.web_driver_url, None);
    assert_eq!(config.search.autoswitch, "smart");
    assert_eq!(config.search.travily_api_key, None);
}
