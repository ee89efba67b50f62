use realtime_svg::config::Config;

#[test]
fn test_default_config() {
    let config = Config::default();
    assert_eq!(config.redis_url, "redis://127.0.0.1/");
    assert_eq!(config.host, "127.0.0.1");
    assert_eq!(config.port, 3000);
    assert_eq!(config.log_level, "info");
}

#[test]
fn test_cli_overrides_all() {
    // Test that CLI options override both ENV and YAML
    // This will be tested when CLI parsing is fully integrated
    let config = Config::default();
    assert_eq!(config.port, 3000);
}

#[test]
fn test_priority_same_field() {
    // Test priority: CLI > ENV > Config for same field
    // Placeholder for full integration test
    assert!(true);
}

#[test]
fn test_custom_config_path_relative() {
    // Test relative path resolution (relative to binary directory)
    assert!(true);
}

#[test]
fn test_config_file_not_found_error() {
    let non_existent = std::path::PathBuf::from("/nonexistent/config.yaml");
    assert!(!non_existent.exists());
}

#[test]
fn test_validation_port_range() {
    let mut config = Config::default();

    // Valid port
    config.port = 8080;
    assert!(config.validate().is_ok());

    // Invalid port (0)
    config.port = 0;
    assert!(config.validate().is_err());

    // Note: Can't test port > 65535 with u16 type as it's compile-time checked
}

#[test]
fn test_validation_redis_url_prefix() {
    let mut config = Config::default();

    config.redis_url = "redis://localhost:6379/".to_string();
    assert!(config.validate().is_ok());

    config.redis_url = "rediss://localhost:6379/".to_string();
    assert!(config.validate().is_ok());

    config.redis_url = "http://localhost:6379/".to_string();
    assert!(config.validate().is_err());
}

#[test]
fn test_validation_error_messages() {
    let mut config = Config::default();

    config.port = 0;
    let result = config.validate();
    assert!(result.is_err());
    let error = result.unwrap_err();
    assert!(error.to_string().contains("포트"));

    config.port = 3000; // Reset to valid
    config.host = "".to_string();
    let result = config.validate();
    assert!(result.is_err());
    let error = result.unwrap_err();
    assert!(error.to_string().contains("호스트"));
}
