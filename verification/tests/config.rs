use imap_mcp_lite::config::{ConfigError, ServerConfig, StartupError};

fn config() -> ServerConfig {
    ServerConfig {
        auth_mode: "static".to_string(),
        mcp_api_token: "0123456789abcdef0123456789abcdef".to_string(),
        imap_host: "mail.example.com".to_string(),
        imap_port: 993,
        imap_username: "user@example.com".to_string(),
        imap_app_password: "app-password".to_string(),
        base_url: "http://localhost:8080".to_string(),
        redis_url: "redis://localhost:6379".to_string(),
        redis_key_prefix: "imap-mcp-lite:".to_string(),
    }
}

#[test]
fn a_complete_configuration_starts() {
    assert!(config().validate().is_ok());
    let state = config().start().ok().unwrap();
    assert_eq!(state.account.account_id, "static");
    assert_eq!(state.account.label, "user@example.com");
    assert_eq!(state.account.imap_email, "user@example.com");
    assert_eq!(state.account.imap_host, "mail.example.com");
    assert_eq!(state.account.imap_port, 993);
    assert_eq!(state.account.password.expose_secret(), "app-password");
    assert_eq!(
        state.mcp_api_token.expose_secret(),
        "0123456789abcdef0123456789abcdef"
    );
    assert_eq!(state.sessions.key("k"), "imap-mcp-lite:k");
    assert_eq!(state.base_url, "http://localhost:8080");
    assert_eq!(state.mcp_allowed_hosts[0], "localhost");
}

#[test]
fn other_auth_modes_are_refused() {
    let mut c = config();
    c.auth_mode = "oidc".to_string();
    let error = c.validate().unwrap_err();
    assert!(matches!(error, ConfigError::UnsupportedAuthMode(_)));
    assert_eq!(
        error.to_string(),
        "unsupported AUTH_MODE 'oidc': only 'static' is supported"
    );
}

#[test]
fn short_tokens_are_refused() {
    let mut c = config();
    c.mcp_api_token = "a".repeat(31);
    let error = c.validate().unwrap_err();
    assert!(matches!(error, ConfigError::ShortApiToken));
    assert_eq!(
        error.to_string(),
        "MCP_API_TOKEN must be at least 32 characters"
    );
    c.mcp_api_token = String::new();
    assert!(c.validate().is_err());
    c.mcp_api_token = "é".repeat(16);
    assert!(c.validate().is_ok());
}

#[test]
fn missing_credentials_are_refused() {
    let mut c = config();
    c.imap_username = " \t".to_string();
    let error = c.validate().unwrap_err();
    assert!(matches!(error, ConfigError::EmptyUsername));
    assert_eq!(error.to_string(), "IMAP_USERNAME must not be empty");

    let mut c = config();
    c.imap_app_password = String::new();
    let error = c.validate().unwrap_err();
    assert!(matches!(error, ConfigError::EmptyPassword));
    assert_eq!(error.to_string(), "IMAP_APP_PASSWORD must not be empty");

    let mut c = config();
    c.imap_app_password = " ".to_string();
    assert!(c.validate().is_ok());
}

#[test]
fn blank_key_prefix_is_refused() {
    let mut c = config();
    c.redis_key_prefix = "\u{2003}".to_string();
    let error = c.validate().unwrap_err();
    assert!(matches!(error, ConfigError::EmptyKeyPrefix));
    assert_eq!(error.to_string(), "REDIS_KEY_PREFIX must not be empty");
}

#[test]
fn the_first_fault_is_reported() {
    let mut c = config();
    c.mcp_api_token = String::new();
    c.imap_username = String::new();
    assert!(matches!(c.validate(), Err(ConfigError::ShortApiToken)));
}

#[test]
fn startup_reports_what_failed() {
    let mut c = config();
    c.imap_username = String::new();
    match c.start() {
        Err(StartupError::Config(ConfigError::EmptyUsername)) => {}
        _ => panic!("expected a configuration error"),
    }
    let mut c = config();
    c.redis_url = "http://x".to_string();
    c.base_url = "x".to_string();
    match c.start() {
        Err(error) => {
            assert!(matches!(error, StartupError::Store(_)));
            assert!(error.to_string().starts_with("Redis error: "));
        }
        Ok(_) => panic!("expected a store error"),
    }
    let mut c = config();
    c.base_url = "x".to_string();
    match c.start() {
        Err(error) => {
            assert!(matches!(error, StartupError::BaseUrl(_)));
            assert!(error.to_string().starts_with("BASE_URL is not a valid URL (x): "));
        }
        Ok(_) => panic!("expected a base URL error"),
    }
}
