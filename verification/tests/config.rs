use tradier::config::{number_or_default, text_or_default};
use tradier::constants::{
    TRADIER_API_BASE_URL, TRADIER_SESSION_TIMEOUT, TRADIER_STREAM_EVENTS_PATH,
    TRADIER_STREAM_HTTP_BASE_URL, TRADIER_WS_BASE_URL,
};
use tradier::{Config, Credentials, Environment, RestApiConfig, StreamingConfig};

#[test]
fn test_config_new_with_defaults() {
    let config = Config::from_environment(Environment::default());
    assert_eq!(config.rest_api.base_url, TRADIER_API_BASE_URL);
    assert_eq!(config.streaming.http_base_url, TRADIER_STREAM_HTTP_BASE_URL);
    assert_eq!(config.streaming.ws_base_url, TRADIER_WS_BASE_URL);
    assert_eq!(config.streaming.events_path, TRADIER_STREAM_EVENTS_PATH);
    assert_eq!(config.streaming.reconnect_interval, 5);
    assert_eq!(config.rest_api.timeout, 30);
    assert_eq!(config.credentials.client_id, "default_client_id");
    assert_eq!(config.credentials.client_secret, "default_client_secret");
    assert_eq!(config.credentials.access_token, None);
    assert_eq!(config.credentials.refresh_token, None);
}

#[test]
fn test_config_new_with_env_vars() {
    let environment = Environment {
        client_id: Some("test_client_id".to_string()),
        client_secret: Some("test_client_secret".to_string()),
        access_token: Some("test_access_token".to_string()),
        refresh_token: Some("test_refresh_token".to_string()),
        rest_base_url: Some("https://test-api.tradier.com".to_string()),
        rest_timeout: Some("60".to_string()),
        stream_http_base_url: Some("https://test-stream.tradier.com".to_string()),
        ws_base_url: Some("wss://test-ws.tradier.com".to_string()),
        stream_events_path: Some("/v1/test/events".to_string()),
        stream_reconnect_interval: Some("10".to_string()),
    };
    let config = Config::from_environment(environment);
    assert_eq!(config.credentials.client_id, "test_client_id");
    assert_eq!(config.credentials.client_secret, "test_client_secret");
    assert_eq!(
        config.credentials.access_token,
        Some("test_access_token".to_string())
    );
    assert_eq!(
        config.credentials.refresh_token,
        Some("test_refresh_token".to_string())
    );
    assert_eq!(config.rest_api.base_url, "https://test-api.tradier.com");
    assert_eq!(config.rest_api.timeout, 60);
    assert_eq!(
        config.streaming.http_base_url,
        "https://test-stream.tradier.com"
    );
    assert_eq!(config.streaming.ws_base_url, "wss://test-ws.tradier.com");
    assert_eq!(config.streaming.events_path, "/v1/test/events");
    assert_eq!(config.streaming.reconnect_interval, 10);
}

#[test]
fn test_get_ws_url() {
    let config = Config::from_environment(Environment::default());
    assert_eq!(
        config.get_ws_url(),
        format!("{}{}", TRADIER_WS_BASE_URL, TRADIER_STREAM_EVENTS_PATH)
    );
}

#[test]
fn test_get_http_url() {
    let config = Config::from_environment(Environment::default());
    assert_eq!(
        config.get_http_url(),
        format!(
            "{}{}",
            TRADIER_STREAM_HTTP_BASE_URL, TRADIER_STREAM_EVENTS_PATH
        )
    );
}

#[test]
fn test_credentials_display() {
    let credentials = Credentials {
        client_id: "test_id".to_string(),
        client_secret: "test_secret".to_string(),
        access_token: Some("test_access".to_string()),
        refresh_token: Some("test_refresh".to_string()),
    };
    let display = credentials.to_string();
    assert!(display.contains("\"client_id\":\"[REDACTED]\""));
    assert!(display.contains("\"client_secret\":\"[REDACTED]\""));
    assert!(display.contains("\"access_token\":\"[REDACTED]\""));
    assert!(display.contains("\"refresh_token\":\"[REDACTED]\""));
}

#[test]
fn test_config_display() {
    let config = Config::from_environment(Environment::default());
    let display = config.to_string();
    assert!(display.contains("\"credentials\":"));
    assert!(display.contains("\"rest_api\":"));
    assert!(display.contains("\"streaming\":"));
}

#[test]
fn urls_are_exact() {
    let config = Config::from_environment(Environment::default());
    assert_eq!(config.get_ws_url(), "wss://ws.tradier.com/v1/markets/events");
    assert_eq!(
        config.get_http_url(),
        "https://stream.tradier.com/v1/markets/events"
    );
    assert_eq!(TRADIER_SESSION_TIMEOUT, 5);
}

#[test]
fn display_is_exact_and_never_shows_a_secret() {
    let credentials = Credentials {
        client_id: "my-id".to_string(),
        client_secret: "my-secret".to_string(),
        access_token: Some("my-token".to_string()),
        refresh_token: None,
    };
    assert_eq!(
        credentials.to_string(),
        "{\"client_id\":\"[REDACTED]\",\"client_secret\":\"[REDACTED]\",\"access_token\":\"[REDACTED]\",\"refresh_token\":null}"
    );
    let rest_api = RestApiConfig { base_url: "https://a".to_string(), timeout: 30 };
    assert_eq!(rest_api.to_string(), "{\"base_url\":\"https://a\",\"timeout\":30}");
    let streaming = StreamingConfig {
        http_base_url: "h".to_string(),
        ws_base_url: "w".to_string(),
        events_path: "/e".to_string(),
        reconnect_interval: 0,
    };
    assert_eq!(
        streaming.to_string(),
        "{\"http_base_url\":\"h\",\"ws_base_url\":\"w\",\"events_path\":\"/e\",\"reconnect_interval\":0}"
    );
    let config = Config { credentials, rest_api, streaming };
    let shown = config.to_string();
    assert_eq!(
        shown,
        "{\"credentials\":{\"client_id\":\"[REDACTED]\",\"client_secret\":\"[REDACTED]\",\"access_token\":\"[REDACTED]\",\"refresh_token\":null},\"rest_api\":{\"base_url\":\"https://a\",\"timeout\":30},\"streaming\":{\"http_base_url\":\"h\",\"ws_base_url\":\"w\",\"events_path\":\"/e\",\"reconnect_interval\":0}}"
    );
    assert!(!shown.contains("my-"));
}

#[test]
fn a_setting_that_writes_no_number_falls_back_to_the_default() {
    assert_eq!(number_or_default(None, 30), 30);
    assert_eq!(number_or_default(Some("60".to_string()), 30), 60);
    assert_eq!(number_or_default(Some("+7".to_string()), 30), 7);
    assert_eq!(number_or_default(Some("007".to_string()), 30), 7);
    assert_eq!(number_or_default(Some("".to_string()), 30), 30);
    assert_eq!(number_or_default(Some("+".to_string()), 30), 30);
    assert_eq!(number_or_default(Some("-1".to_string()), 30), 30);
    assert_eq!(number_or_default(Some(" 60".to_string()), 30), 30);
    assert_eq!(number_or_default(Some("60s".to_string()), 30), 30);
    assert_eq!(number_or_default(Some("6.0".to_string()), 30), 30);
    assert_eq!(
        number_or_default(Some("18446744073709551615".to_string()), 30),
        u64::MAX
    );
    assert_eq!(
        number_or_default(Some("18446744073709551616".to_string()), 30),
        30
    );
    assert_eq!(text_or_default(None, "fallback"), "fallback");
    assert_eq!(text_or_default(Some("".to_string()), "fallback"), "");
    assert_eq!(text_or_default(Some("set".to_string()), "fallback"), "set");
}
