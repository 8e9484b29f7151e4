use wechat_sdk::client::config::{
    account_file_path, resolve_state_dir, session_file_path, ConfigEnv, StateDir,
    DEFAULT_HTTP_TIMEOUT_MS, DEFAULT_QR_LOGIN_TIMEOUT_MS,
};
use wechat_sdk::client::WechatConfig;
use wechat_sdk::error::WechatError;

fn env(account_id: Option<&str>) -> ConfigEnv {
    ConfigEnv {
        state_path: None,
        account_id: account_id.map(|s| s.to_string()),
        http_timeout: None,
        qr_login_timeout: None,
        home_dir: Some("/home/bot".to_string()),
        template_dir: None,
    }
}

#[test]
fn test_from_env() {
    let config = WechatConfig::from_env(&env(Some("demo"))).unwrap();
    assert_eq!(config.state_path, "/home/bot/.wechat");
    assert_eq!(config.account_id.as_str(), "demo");
    assert_eq!(config.http_timeout, Some(DEFAULT_HTTP_TIMEOUT_MS));
    assert_eq!(config.qr_login_timeout, Some(DEFAULT_QR_LOGIN_TIMEOUT_MS));
    assert_eq!(config.http_api_get_updates_timeout, None);
}

#[test]
fn from_env_defaults_are_two_seconds_and_two_minutes() {
    assert_eq!(DEFAULT_HTTP_TIMEOUT_MS, 2000);
    assert_eq!(DEFAULT_QR_LOGIN_TIMEOUT_MS, 120_000);
}

#[test]
fn from_env_state_path_variable_is_taken_as_given() {
    let mut e = env(Some("demo"));
    e.state_path = Some("relative/state".to_string());
    let config = WechatConfig::from_env(&e).unwrap();
    assert_eq!(config.state_path, "relative/state");
}

#[test]
fn from_env_falls_back_to_template_dir() {
    let mut e = env(Some("demo"));
    e.home_dir = None;
    e.template_dir = Some("/tmp/templates/".to_string());
    let config = WechatConfig::from_env(&e).unwrap();
    assert_eq!(config.state_path, "/tmp/templates/.wechat");
}

#[test]
fn from_env_without_any_state_path_fails() {
    let mut e = env(None);
    e.home_dir = None;
    assert_eq!(WechatConfig::from_env(&e).unwrap_err(), WechatError::NoStatePath);
}

#[test]
fn from_env_without_account_id_fails() {
    assert_eq!(WechatConfig::from_env(&env(None)).unwrap_err(), WechatError::AccountIdEnvNotFound);
}

#[test]
fn from_env_reads_timeouts() {
    let mut e = env(Some("demo"));
    e.http_timeout = Some("+500".to_string());
    e.qr_login_timeout = Some("18446744073709551615".to_string());
    let config = WechatConfig::from_env(&e).unwrap();
    assert_eq!(config.http_timeout, Some(500));
    assert_eq!(config.qr_login_timeout, Some(u64::MAX));
}

#[test]
fn from_env_ignores_unparsable_timeouts() {
    let mut e = env(Some("demo"));
    e.http_timeout = Some("-5".to_string());
    e.qr_login_timeout = Some("18446744073709551616".to_string());
    let config = WechatConfig::from_env(&e).unwrap();
    assert_eq!(config.http_timeout, Some(2000));
    assert_eq!(config.qr_login_timeout, Some(120_000));
}

#[test]
fn state_files_live_under_root_and_account() {
    let config = WechatConfig::from_env(&env(Some("demo"))).unwrap();
    let dir = config.account_state_dir();
    assert_eq!(dir, "/home/bot/.wechat/demo");
    assert_eq!(account_file_path(&dir), "/home/bot/.wechat/demo/config.json");
    assert_eq!(session_file_path(&dir), "/home/bot/.wechat/demo/session_context.json");
}

#[test]
fn absolute_account_id_replaces_state_root() {
    let config = WechatConfig::from_env(&env(Some("/abs/acct"))).unwrap();
    assert_eq!(config.account_state_dir(), "/abs/acct");
}

#[test]
fn client_and_request_timeouts() {
    let mut config = WechatConfig::from_env(&env(Some("demo"))).unwrap();
    config.http_timeout = None;
    config.qr_login_timeout = Some(7);
    assert_eq!(config.http_client_timeout_ms(), 2000);
    assert_eq!(config.api_request_timeout_ms(), 2000);
    assert_eq!(config.get_updates_timeout_ms(), 2000);
    config.http_timeout = Some(2500);
    config.qr_login_timeout = Some(120_000);
    assert_eq!(config.api_request_timeout_ms(), 2500);
    assert_eq!(config.get_updates_timeout_ms(), 2500);
    config.http_api_get_updates_timeout = Some(35_000);
    assert_eq!(config.get_updates_timeout_ms(), 35_000);
    assert_eq!(config.api_request_timeout_ms(), 2500);
}

#[test]
fn state_dir_decisions() {
    assert!(matches!(resolve_state_dir("d".to_string(), true, true), Ok(StateDir::Ready(p)) if p == "d"));
    assert!(matches!(resolve_state_dir("d".to_string(), false, false), Ok(StateDir::Create(p)) if p == "d"));
    assert_eq!(
        resolve_state_dir("d".to_string(), true, false).unwrap_err(),
        WechatError::StatePathNotDir("d".to_string())
    );
}
