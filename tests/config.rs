use websearch_mcp::config::Config;

fn defaults() -> Config {
    Config::from_settings(None, None, None, None, None, None)
}

#[test]
fn test_default_config() {
    let config = defaults();
    assert_eq!(config.max_results, 10);
    assert_eq!(config.timeout_secs, 10);
    assert_eq!(config.user_agent, "websearch-mcp/0.1");
}

#[test]
fn test_config_from_env() {
    let config = Config::from_settings(
        Some("20"),
        Some("30"),
        Some("custom-agent/1.0".to_string()),
        None,
        None,
        None,
    );
    assert_eq!(config.max_results, 20);
    assert_eq!(config.timeout_secs, 30);
    assert_eq!(config.user_agent, "custom-agent/1.0");
}

#[test]
fn test_config_invalid_env_uses_default() {
    let config = Config::from_settings(Some("not_a_number"), None, None, None, None, None);
    assert_eq!(config.max_results, 10);
}

#[test]
fn test_default_cache_ttl_secs() {
    assert_eq!(defaults().cache_ttl_secs, 300);
}

#[test]
fn test_default_rate_limit_ms() {
    assert_eq!(defaults().rate_limit_ms, 1000);
}

#[test]
fn test_default_max_retries() {
    assert_eq!(defaults().max_retries, 3);
}

#[test]
fn test_custom_cache_ttl_secs() {
    let config = Config::from_settings(None, None, None, Some("600"), None, None);
    assert_eq!(config.cache_ttl_secs, 600);
}

#[test]
fn test_custom_rate_limit_ms() {
    let config = Config::from_settings(None, None, None, None, Some("2000"), None);
    assert_eq!(config.rate_limit_ms, 2000);
}

#[test]
fn test_custom_max_retries() {
    let config = Config::from_settings(None, None, None, None, None, Some("5"));
    assert_eq!(config.max_retries, 5);
}

#[test]
fn test_invalid_cache_ttl_uses_default() {
    let config = Config::from_settings(None, None, None, Some("abc"), None, None);
    assert_eq!(config.cache_ttl_secs, 300);
}

#[test]
fn test_invalid_rate_limit_uses_default() {
    let config = Config::from_settings(None, None, None, None, Some("abc"), None);
    assert_eq!(config.rate_limit_ms, 1000);
}

#[test]
fn test_invalid_max_retries_uses_default() {
    let config = Config::from_settings(None, None, None, None, None, Some("abc"));
    assert_eq!(config.max_retries, 3);
}

#[test]
fn config_number_forms() {
    let config = Config::from_settings(Some("+7"), Some(""), None, Some("-1"), Some(" 5"), Some("4294967296"));
    assert_eq!(config.max_results, 7);
    assert_eq!(config.timeout_secs, 10);
    assert_eq!(config.cache_ttl_secs, 300);
    assert_eq!(config.rate_limit_ms, 1000);
    assert_eq!(config.max_retries, 3);
    let big = Config::from_settings(None, Some("18446744073709551615"), None, Some("18446744073709551616"), None, Some("4294967295"));
    assert_eq!(big.timeout_secs, u64::MAX);
    assert_eq!(big.cache_ttl_secs, 300);
    assert_eq!(big.max_retries, u32::MAX);
}

#[test]
fn config_derived_values() {
    let config = defaults();
    assert_eq!(config.cache_ttl_ms(), 300_000);
    assert_eq!(config.effective_max_results(None), 10);
    assert_eq!(config.effective_max_results(Some(3)), 3);
    let huge = Config::from_settings(None, None, None, Some("18446744073709551615"), None, None);
    assert_eq!(huge.cache_ttl_ms(), u64::MAX);
}
