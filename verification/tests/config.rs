use freshbooks_mcp::config::{
    blank, config_dir, config_path, default_redirect_uri, token_path, validate, Config, ConfigError,
};

fn config(id: &str, secret: &str) -> Config {
    Config {
        client_id: id.to_string(),
        client_secret: secret.to_string(),
        redirect_uri: default_redirect_uri(),
        account_id: None,
    }
}

#[test]
fn default_redirect() {
    assert_eq!(default_redirect_uri(), "https://localhost/callback");
}

#[test]
fn file_locations() {
    assert_eq!(config_dir("/home/u/.config"), "/home/u/.config/mcp-server-freshbooks");
    assert_eq!(config_dir("/home/u/.config/"), "/home/u/.config/mcp-server-freshbooks");
    assert_eq!(config_path("/d"), "/d/config.toml");
    assert_eq!(token_path("/d"), "/d/token.json");
    assert_eq!(token_path(""), "token.json");
    let dir = std::path::PathBuf::from("/home/u/.config").join("mcp-server-freshbooks");
    assert_eq!(config_path(&dir.to_string_lossy()), dir.join("config.toml").to_string_lossy());
}

#[test]
fn blank_texts() {
    assert!(blank(""));
    assert!(blank(" \t\n\u{a0}\u{3000}"));
    assert!(!blank(" x "));
    for c in ['\u{85}', '\u{2028}', '\u{205f}', '\u{200a}', '\u{b}'] {
        assert_eq!(blank(&c.to_string()), c.is_whitespace());
    }
    assert!(!blank("\u{200b}"));
}

#[test]
fn config_checks() {
    assert!(validate(&config("id", "secret")).is_ok());
    assert!(matches!(validate(&config("  ", "secret")), Err(ConfigError::EmptyClientId)));
    assert!(matches!(validate(&config("", "")), Err(ConfigError::EmptyClientId)));
    assert!(matches!(validate(&config("id", "\t")), Err(ConfigError::EmptyClientSecret)));
    assert_eq!(
        ConfigError::EmptyClientId.message("/d/config.toml"),
        "client_id in /d/config.toml is empty"
    );
    assert_eq!(
        ConfigError::EmptyClientSecret.message("/d/config.toml"),
        "client_secret in /d/config.toml is empty"
    );
}
