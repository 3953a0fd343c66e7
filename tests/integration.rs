use e2b::config::Config;
use e2b::Error;

#[test]
fn test_error_types() {
    let api_error = Error::Api {
        status: 404,
        message: "Not found".to_string(),
    };

    match api_error {
        Error::Api { status, message } => {
            assert_eq!(status, 404);
            assert_eq!(message, "Not found");
        }
        _ => panic!("Expected API error"),
    }

    let timeout_error = Error::Timeout;
    assert!(matches!(timeout_error, Error::Timeout));

    let not_found_error = Error::NotFound("test".to_string());
    assert!(matches!(not_found_error, Error::NotFound(_)));
}

#[test]
fn config_without_api_key_is_refused() {
    match Config::from_env_values(None, None) {
        Err(Error::ApiKeyNotFound) => (),
        _ => panic!("Expected ApiKeyNotFound error"),
    }
}

#[test]
fn config_with_api_key_uses_service_defaults() {
    let config = Config::from_env_values(Some("test_env_key".to_string()), None).unwrap();
    assert_eq!(config.api_key, "test_env_key");
    assert_eq!(config.base_url, "https://api.e2b.app");
    assert_eq!(config.timeout_seconds, 300);
    assert_eq!(config.max_retries, 3);
    assert!(!config.is_debug());
}

#[test]
fn config_debug_flag_ignores_case() {
    let config = Config::from_env_values(Some("k".to_string()), Some("TrUe")).unwrap();
    assert!(config.is_debug());
    assert_eq!(config.base_url, "http://localhost:3000");
    let config = Config::from_env_values(Some("k".to_string()), Some("yes")).unwrap();
    assert!(!config.is_debug());
}

#[test]
fn config_builders_replace_one_setting() {
    let config = Config::for_key("k".to_string(), false)
        .base_url("http://example.test")
        .timeout_seconds(10)
        .max_retries(7)
        .debug(true);
    assert_eq!(config.base_url, "http://example.test");
    assert_eq!(config.timeout_seconds, 10);
    assert_eq!(config.max_retries, 7);
    assert!(config.is_debug());
}

#[test]
fn sandbox_domain_strips_api_prefixes() {
    let config = Config::for_key("k".to_string(), false);
    assert_eq!(config.sandbox_domain_from(Some("  api.api.example.com ")), "example.com");
    assert_eq!(config.sandbox_domain_from(Some("api.")), "e2b.dev");
    assert_eq!(config.sandbox_domain_from(None), "e2b.dev");
    let debug = Config::for_key("k".to_string(), true);
    assert_eq!(debug.sandbox_domain_from(Some("example.com")), "localhost");
}
