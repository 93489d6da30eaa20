use webpad::config::{
    default_auth_backoff_base_ms, default_auth_backoff_max_ms, default_enable_tls,
    default_heartbeat, default_max_auth_failures, default_max_connections,
    default_max_unauth_connections, generate_password, password_of, Config, Overrides, CHARSET,
    CHARSET_LEN,
};
use webpad::net::SocketAddrV4;
use webpad::password;

#[test]
fn config_default_config_has_empty_password() {
    let config = Config::default();
    assert!(config.password.is_empty());
    assert!(config.password_hash().is_empty());
}

#[test]
fn config_default_config_uses_port_8443() {
    let config = Config::default();
    assert_eq!(config.port, 8443);
}

#[test]
fn config_default_config_has_http_redirect_port_8080() {
    let config = Config::default();
    assert_eq!(config.http_redirect_port, 8080);
}

#[test]
fn config_default_heartbeat_timeout_is_30_seconds() {
    let config = Config::default();
    assert_eq!(config.heartbeat_timeout_secs, 30);
}

#[test]
fn config_config_listen_addr_uses_0_0_0_0() {
    let config = Config::default();
    assert_eq!(config.listen_addr().port(), 8443);
}

#[test]
fn config_config_display_shows_port_and_auth_status() {
    let config = Config::default();
    let display = config.to_string();
    assert!(display.contains("8443"));
    assert!(display.contains("disabled"));
}

#[test]
fn config_config_display_shows_heartbeat() {
    let config = Config::default();
    let display = config.to_string();
    assert!(display.contains("30s"));
}

#[test]
fn config_display_shows_auth_enabled() {
    let mut config = Config::default();
    config.password = "test".to_string();
    let display = config.to_string();
    assert!(display.contains("enabled"));
}

#[test]
fn config_hash_password_not_plaintext() {
    let hash = password::hash_password("hello");
    assert_ne!(hash, "hello");
}

#[test]
fn different_inputs_different_verify_results() {
    let hash1 = password::hash_password("hello");
    let hash2 = password::hash_password("world");
    assert!(password::verify_password("hello", &hash1));
    assert!(!password::verify_password("world", &hash1));
    assert!(password::verify_password("world", &hash2));
}

#[test]
fn config_generate_password_returns_non_empty_string() {
    let pwd = generate_password(16);
    assert!(!pwd.is_empty());
    assert_eq!(pwd.len(), 16);
}

#[test]
fn config_generate_password_different_each_call() {
    assert_ne!(generate_password(16), generate_password(16));
}

#[test]
fn password_hash_returns_argon2id() {
    let mut config = Config::default();
    config.password = "test".to_string();
    let hash = config.password_hash();
    assert!(hash.starts_with("$argon2id$"));
    assert!(!hash.is_empty());
}

#[test]
fn config_verify_password_matches() {
    let mut config = Config::default();
    config.password = "test_password".to_string();
    assert!(config.verify_password("test_password"));
}

#[test]
fn config_verify_password_wrong() {
    let mut config = Config::default();
    config.password = "test_password".to_string();
    assert!(!config.verify_password("wrong"));
}

#[test]
fn ensure_password_generates_when_empty() {
    let mut config = Config::default();
    config.ensure_password();
    assert!(!config.password.is_empty());
    assert_eq!(config.password.len(), 16);
}

#[test]
fn ensure_password_does_not_overwrite() {
    let mut config = Config::default();
    config.password = "existing".to_string();
    config.ensure_password();
    assert_eq!(config.password, "existing");
}

#[test]
fn config_test_default_config_uses_port_8443() {
    let config = webpad::config::Config::default();
    assert_eq!(config.port, 8443);
}

#[test]
fn config_test_default_config_has_http_redirect_port_8080() {
    let config = webpad::config::Config::default();
    assert_eq!(config.http_redirect_port, 8080);
}

#[test]
fn config_test_default_config_has_empty_password() {
    let config = webpad::config::Config::default();
    assert!(config.password.is_empty());
    assert!(config.password_hash().is_empty());
}

#[test]
fn config_test_config_display_shows_port_and_auth_status() {
    let config = webpad::config::Config::default();
    let display = config.to_string();
    assert!(display.contains("8443"));
}

#[test]
fn config_test_config_listen_addr_uses_0_0_0_0() {
    let config = webpad::config::Config::default();
    let addr = config.listen_addr();
    assert_eq!(addr, SocketAddrV4 { octets: (0, 0, 0, 0), port: 8443 });
    assert_eq!(addr.to_string(), "0.0.0.0:8443");
}

#[test]
fn config_test_generate_password_returns_non_empty_string() {
    let password = webpad::config::generate_password(16);
    assert_eq!(password.len(), 16);
    assert!(!password.is_empty());
}

#[test]
fn config_test_generate_password_different_each_call() {
    let p1 = webpad::config::generate_password(16);
    let p2 = webpad::config::generate_password(16);
    assert_ne!(p1, p2);
}

#[test]
fn hash_password_verify_matches() {
    let hash = webpad::password::hash_password("test123");
    assert!(webpad::password::verify_password("test123", &hash));
    assert!(!webpad::password::verify_password("wrong", &hash));
}

#[test]
fn hash_password_different_inputs_different_hashes() {
    let hash1 = webpad::password::hash_password("password1");
    let hash2 = webpad::password::hash_password("password2");
    assert!(webpad::password::verify_password("password1", &hash1));
    assert!(!webpad::password::verify_password("password2", &hash1));
    assert!(webpad::password::verify_password("password2", &hash2));
}

#[test]
fn config_test_hash_password_not_plaintext() {
    let hash = webpad::password::hash_password("mysecret");
    assert_ne!(hash, "mysecret");
}

#[test]
fn config_test_default_heartbeat_timeout_is_30_seconds() {
    let config = webpad::config::Config::default();
    assert_eq!(config.heartbeat_timeout_secs, 30);
}

#[test]
fn heartbeat_timeout_returns_correct_duration() {
    let config = webpad::config::Config { heartbeat_timeout_secs: 15, ..Default::default() };
    assert_eq!(config.heartbeat_timeout(), std::time::Duration::from_secs(15));
}

#[test]
fn config_test_config_display_shows_heartbeat() {
    let config = webpad::config::Config::default();
    let display = config.to_string();
    assert!(display.contains("30s"));
}

#[test]
fn heartbeat_timeout_is_five_seconds_at_least() {
    let config = Config { heartbeat_timeout_secs: 0, ..Default::default() };
    assert_eq!(config.heartbeat_timeout(), std::time::Duration::from_secs(5));
    assert_eq!(config.silence_allowed(), 5);
    let config = Config { heartbeat_timeout_secs: 5, ..Default::default() };
    assert_eq!(config.heartbeat_timeout(), std::time::Duration::from_secs(5));
    let config = Config { heartbeat_timeout_secs: u64::MAX, ..Default::default() };
    assert_eq!(config.heartbeat_timeout(), std::time::Duration::from_secs(u64::MAX));
}

#[test]
fn default_summary_is_exact() {
    assert_eq!(
        Config::default().to_string(),
        "WebPad Config:\n  HTTPS Port: 8443\n  HTTP Redirect: 8080\n  Auth: disabled\n  UPnP: false\n  TLS: self-signed\n  Heartbeat: 30s\n  Max Auth Failures: 5\n  Auth Backoff: 500ms - 10000ms\n  Max Connections: 8\n  Max Unauth Connections: 3"
    );
}

#[test]
fn summary_of_other_settings_is_exact() {
    let config = Config {
        port: 1,
        http_redirect_port: 0,
        password: "secret".to_string(),
        cert_path: Some("/etc/cert.pem".to_string()),
        enable_upnp: true,
        heartbeat_timeout_secs: 18446744073709551615,
        ..Default::default()
    };
    assert_eq!(
        config.to_string(),
        "WebPad Config:\n  HTTPS Port: 1\n  HTTP Redirect: disabled\n  Auth: enabled\n  UPnP: true\n  TLS: /etc/cert.pem\n  Heartbeat: 18446744073709551615s\n  Max Auth Failures: 5\n  Auth Backoff: 500ms - 10000ms\n  Max Connections: 8\n  Max Unauth Connections: 3"
    );
    assert!(!config.to_string().contains("secret"));
}

#[test]
fn file_defaults() {
    assert_eq!(default_heartbeat(), 30);
    assert_eq!(default_max_auth_failures(), 5);
    assert_eq!(default_auth_backoff_base_ms(), 500);
    assert_eq!(default_auth_backoff_max_ms(), 10000);
    assert_eq!(default_max_connections(), 8);
    assert_eq!(default_max_unauth_connections(), 3);
    assert!(default_enable_tls());
}

#[test]
fn unset_password_verifies_nothing() {
    let config = Config::default();
    assert!(!config.verify_password(""));
    assert!(!config.verify_password("anything"));
}

#[test]
fn generated_password_uses_the_charset() {
    let password = generate_password(400);
    assert_eq!(password.len(), 400);
    assert!(password.chars().all(|c| CHARSET.contains(c)));
    assert!(!CHARSET.contains('O') && !CHARSET.contains('0') && !CHARSET.contains('l'));
    assert_eq!(CHARSET.len(), CHARSET_LEN);
    assert_eq!(generate_password(0), "");
}

#[test]
fn generated_passwords_reach_beyond_one_character() {
    let password = generate_password(400);
    let first = password.chars().next().unwrap();
    assert!(password.chars().any(|c| c != first));
}

#[test]
fn password_follows_the_choices() {
    assert_eq!(password_of(&vec![0, 1, 8, 23, 24, 47, 48, 55]), "ABJZaz29");
    assert_eq!(password_of(&vec![]), "");
}

#[test]
fn old_layout_is_migrated_once() {
    let mut config = Config { port: 8080, http_redirect_port: 0, ..Default::default() };
    assert!(config.migrate());
    assert_eq!((config.port, config.http_redirect_port, config.enable_tls), (8443, 0, true));
    assert!(!config.migrate());
    assert_eq!((config.port, config.http_redirect_port, config.enable_tls), (8443, 0, true));
}

#[test]
fn second_port_without_tls_is_migrated() {
    let mut config =
        Config { port: 9000, http_redirect_port: 80, enable_tls: false, ..Default::default() };
    assert!(config.migrate());
    assert_eq!((config.port, config.http_redirect_port, config.enable_tls), (9000, 0, true));
    let mut config =
        Config { port: 8080, http_redirect_port: 80, enable_tls: false, ..Default::default() };
    assert!(config.migrate());
    assert_eq!((config.port, config.http_redirect_port, config.enable_tls), (8443, 0, true));
}

#[test]
fn present_settings_are_not_migrated() {
    let mut config = Config::default();
    assert!(!config.migrate());
    assert_eq!((config.port, config.http_redirect_port, config.enable_tls), (8443, 8080, true));
    let mut config =
        Config { port: 8080, http_redirect_port: 0, enable_tls: false, ..Default::default() };
    assert!(!config.migrate());
    assert_eq!((config.port, config.http_redirect_port, config.enable_tls), (8080, 0, false));
}

#[test]
fn command_line_goes_before_the_file() {
    let mut config = Config {
        password: "file".to_string(),
        enable_upnp: true,
        ..Default::default()
    };
    config.prepare(&Overrides {
        port: Some(7000),
        password: Some("line".to_string()),
        no_upnp: true,
        heartbeat_timeout: Some(60),
    });
    assert_eq!(config.port, 7000);
    assert_eq!(config.password, "line");
    assert!(!config.enable_upnp);
    assert_eq!(config.heartbeat_timeout_secs, 60);
}

#[test]
fn empty_command_line_changes_nothing() {
    let mut config = Config {
        password: "file".to_string(),
        enable_upnp: true,
        ..Default::default()
    };
    config.apply(&Overrides {
        port: None,
        password: None,
        no_upnp: false,
        heartbeat_timeout: None,
    });
    assert_eq!(config.port, 8443);
    assert_eq!(config.password, "file");
    assert!(config.enable_upnp);
    assert_eq!(config.heartbeat_timeout_secs, 30);
}

#[test]
fn empty_password_on_the_command_line_is_replaced() {
    let mut config = Config { password: "file".to_string(), ..Default::default() };
    config.prepare(&Overrides {
        port: None,
        password: Some(String::new()),
        no_upnp: false,
        heartbeat_timeout: None,
    });
    assert_eq!(config.password.len(), 16);
    assert_ne!(config.password, "file");
}

#[test]
fn settings_come_from_the_file_or_by_default() {
    let (config, write) = Config::load_or_create(None);
    assert_eq!((config.port, config.http_redirect_port, write), (8443, 8080, true));
    let stored = Config { port: 9000, password: "p".to_string(), ..Default::default() };
    let (config, write) = Config::load_or_create(Some(stored));
    assert_eq!((config.port, config.password.as_str(), write), (9000, "p", false));
    let stored = Config { port: 8080, ..Default::default() };
    let (config, write) = Config::load_or_create(Some(stored));
    assert_eq!((config.port, write), (8443, true));
}
