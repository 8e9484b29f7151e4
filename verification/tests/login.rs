use wechat_sdk::account::login::{PollOutcome, QrLogin, TickDecision};
use wechat_sdk::account::qr_code_api::{
    qr_code_fetch_url, qr_code_status_url, ILinkBot, QrCode, QrCodeStatusResponse, QrStatus,
};
use wechat_sdk::account::{WechatAccount, WechatAccountId};
use wechat_sdk::client::config::ConfigEnv;
use wechat_sdk::client::WechatConfig;
use wechat_sdk::error::WechatError;
use wechat_sdk::WECHAT_BASE_URL;

fn config(qr_timeout: Option<u64>) -> WechatConfig {
    let mut c = WechatConfig::from_env(&ConfigEnv {
        state_path: Some("/state".to_string()),
        account_id: Some("bot1".to_string()),
        http_timeout: None,
        qr_login_timeout: None,
        home_dir: None,
        template_dir: None,
    })
    .unwrap();
    c.qr_login_timeout = qr_timeout;
    c
}

fn status(status: QrStatus) -> QrCodeStatusResponse {
    QrCodeStatusResponse { status, ilink_bot: None, base_url: None, redirect_host: None }
}

fn login() -> QrLogin {
    QrLogin::new(&config(Some(5000)), QrCode("qr-1".to_string()))
}

#[test]
fn qr_status_names_round_trip() {
    for s in [
        QrStatus::Wait,
        QrStatus::Scaned,
        QrStatus::ScannedButRedirect,
        QrStatus::Expired,
        QrStatus::Confirmed,
        QrStatus::Unknown,
    ] {
        assert_eq!(QrStatus::parse(s.as_str()), Some(s));
    }
    assert_eq!(QrStatus::ScannedButRedirect.as_str(), "scanned_but_redirect");
    assert_eq!(QrStatus::Scaned.as_str(), "scaned");
}

#[test]
fn qr_status_field_reads_unknown_for_anything_else() {
    assert_eq!(QrStatus::from_field(None), QrStatus::Unknown);
    assert_eq!(QrStatus::from_field(Some("CONFIRMED")), QrStatus::Unknown);
    assert_eq!(QrStatus::from_field(Some("scaned_but_redirect")), QrStatus::Unknown);
    assert_eq!(QrStatus::from_field(Some("confirmed")), QrStatus::Confirmed);
}

#[test]
fn qr_urls() {
    assert_eq!(qr_code_fetch_url(), "https://ilinkai.weixin.qq.com/ilink/bot/get_bot_qrcode");
    assert_eq!(qr_code_status_url("https://x.example"), "https://x.example/ilink/bot/get_qrcode_status");
}

#[test]
fn login_starts_at_service_with_configured_timeout() {
    let l = login();
    assert_eq!(l.poll_base_url, WECHAT_BASE_URL);
    assert_eq!(l.timeout_ms, 5000);
    assert_eq!(l.account_id.as_str(), "bot1");
    let d = QrLogin::new(&config(None), QrCode("q".to_string()));
    assert_eq!(d.timeout_ms, 120_000);
}

#[test]
fn tick_prefers_stored_account_then_timeout() {
    let l = login();
    let stored = WechatAccount {
        account_id: WechatAccountId("bot1".to_string()),
        bot_id: "b".to_string(),
        bot_token: "t".to_string(),
        base_url: "u".to_string(),
    };
    assert!(matches!(l.on_tick(Some(stored), 999_999_999_999), TickDecision::Done(a) if a.bot_id == "b"));
    assert!(matches!(l.on_tick(None, 5_000_000_000), TickDecision::Poll));
    assert!(matches!(l.on_tick(None, 5_000_000_001), TickDecision::Failed(WechatError::QrCodeTimeout)));
}

#[test]
fn waiting_statuses_and_failed_polls_continue() {
    let mut l = login();
    assert!(matches!(l.on_poll(None), PollOutcome::Continue));
    for s in [QrStatus::Wait, QrStatus::Scaned, QrStatus::Unknown] {
        assert!(matches!(l.on_poll(Some(status(s))), PollOutcome::Continue));
    }
    assert_eq!(l.poll_base_url, WECHAT_BASE_URL);
}

#[test]
fn redirect_moves_polling_to_https_host() {
    let mut l = login();
    let mut r = status(QrStatus::ScannedButRedirect);
    assert!(matches!(l.on_poll(Some(r)), PollOutcome::Continue));
    assert_eq!(l.poll_base_url, WECHAT_BASE_URL);
    r = status(QrStatus::ScannedButRedirect);
    r.redirect_host = Some("sh.weixin.qq.com".to_string());
    assert!(matches!(l.on_poll(Some(r)), PollOutcome::Continue));
    assert_eq!(l.poll_base_url, "https://sh.weixin.qq.com");
}

#[test]
fn expired_code_fails() {
    let mut l = login();
    assert!(matches!(l.on_poll(Some(status(QrStatus::Expired))), PollOutcome::Failed(WechatError::QrCodeExpired)));
}

#[test]
fn confirmed_without_bot_fails() {
    let mut l = login();
    assert!(matches!(
        l.on_poll(Some(status(QrStatus::Confirmed))),
        PollOutcome::Failed(WechatError::ILinkBotNotFound)
    ));
}

#[test]
fn confirmed_gives_account_for_configured_id() {
    let mut l = login();
    let mut r = status(QrStatus::Confirmed);
    r.ilink_bot = Some(ILinkBot { bot_id: "id@im.bot".to_string(), bot_token: "tok".to_string() });
    match l.on_poll(Some(r)) {
        PollOutcome::Confirmed(a) => {
            assert_eq!(a.account_id.as_str(), "bot1");
            assert_eq!(a.bot_id, "id@im.bot");
            assert_eq!(a.bot_token, "tok");
            assert_eq!(a.base_url, WECHAT_BASE_URL);
        }
        _ => panic!("expected confirmation"),
    }
    let mut r = status(QrStatus::Confirmed);
    r.ilink_bot = Some(ILinkBot { bot_id: "i".to_string(), bot_token: "t".to_string() });
    r.base_url = Some("https://other".to_string());
    assert!(matches!(l.on_poll(Some(r)), PollOutcome::Confirmed(a) if a.base_url == "https://other"));
}
