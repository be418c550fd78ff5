use fsqlctl::config::Config;

#[test]
fn test_config_creation() {
    let config = Config::default();
    assert!(config.api_keys.is_empty());
}

#[test]
fn test_token_operations() {
    let mut config = Config::default();

    // Test setting and getting tokens
    config.set_token("api.query.ai", "test-token-123");
    assert_eq!(
        config.get_token("api.query.ai"),
        Some(&"test-token-123".to_string())
    );

    // Test nonexistent host
    assert_eq!(config.get_token("nonexistent.com"), None);

    // Test multiple hosts
    config.set_token("another.host", "different-token");
    assert_eq!(
        config.get_token("another.host"),
        Some(&"different-token".to_string())
    );
    assert_eq!(
        config.get_token("api.query.ai"),
        Some(&"test-token-123".to_string())
    );
}

#[test]
fn set_token_replaces_previous_token() {
    let mut config = Config::default();
    config.set_token("api.query.ai", "old");
    config.set_token("api.query.ai", "new");
    assert_eq!(config.get_token("api.query.ai"), Some(&"new".to_string()));
    assert_eq!(config.api_keys.len(), 1);
}
