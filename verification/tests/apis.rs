use base64::Engine;
use wechat_sdk::account::{WechatAccount, WechatAccountId};
use wechat_sdk::client::apis::get_config::{GetConfigRequest, GetConfigResponse};
use wechat_sdk::client::apis::send_message::{SendMessageRequest, MESSAGE_STATE_FINISH};
use wechat_sdk::client::apis::send_typing::{SendTypingRequest, SendTypingResponse, SendTypingStatus};
use wechat_sdk::client::apis::{post_target, random_wechat_uin, PostReqBodyBaseInfo};
use wechat_sdk::client::message::{ContextToken, MessageItems, MessageType, SessionContext, ToUserId, TypingTicket};
use wechat_sdk::client::require_account;
use wechat_sdk::error::WechatError;

fn account() -> WechatAccount {
    WechatAccount {
        account_id: WechatAccountId("a".to_string()),
        bot_id: "bot".to_string(),
        bot_token: "secret".to_string(),
        base_url: "https://ilinkai.weixin.qq.com".to_string(),
    }
}

fn session() -> SessionContext {
    SessionContext { context_token: Some(ContextToken("ctx".to_string())), get_updates_buf: None }
}

#[test]
fn uin_is_base64_of_reduced_decimal_clock() {
    assert_eq!(random_wechat_uin(10), "MTA=");
    assert_eq!(random_wechat_uin(4_294_967_295), "MA==");
    let nanos: u128 = 1_700_000_000_123_456_789;
    let expected = base64::engine::general_purpose::STANDARD
        .encode(((nanos % u32::MAX as u128) as u32).to_string().as_bytes());
    assert_eq!(random_wechat_uin(nanos), expected);
    let decoded = base64::engine::general_purpose::STANDARD.decode(random_wechat_uin(nanos)).unwrap();
    assert_eq!(decoded, ((nanos % u32::MAX as u128) as u32).to_string().into_bytes());
}

#[test]
fn post_target_needs_login() {
    assert_eq!(post_target(&None, "/x", 1).unwrap_err(), WechatError::NotLoggedIn);
    assert!(require_account(&None).is_err());
    let t = post_target(&Some(account()), "/ilink/bot/getupdates", 10).unwrap();
    assert_eq!(t.url, "https://ilinkai.weixin.qq.com/ilink/bot/getupdates");
    assert_eq!(t.bot_token, "secret");
    assert_eq!(t.wechat_uin, "MTA=");
    assert_eq!(require_account(&Some(account())).unwrap().bot_id, "bot");
}

#[test]
fn base_info_names_sdk_version() {
    assert_eq!(PostReqBodyBaseInfo::current().channel_version, "0.1.2");
}

#[test]
fn send_message_request_shape() {
    let req = SendMessageRequest::compose(
        ToUserId::from("alice".to_string()),
        MessageItems::text("hi".to_string()),
        None,
        &session(),
    )
    .unwrap();
    let id = &req.msg.client_id;
    assert_eq!(id.len(), 36);
    assert_eq!(&id[8..9], "-");
    assert_eq!(&id[14..15], "4");
    assert_eq!(req.msg.context_token.as_str(), "ctx");
    assert_eq!(req.msg.from_user_id, "");
    assert_eq!(req.msg.to_user_id.user_id().as_str(), "alice");
    assert_eq!(req.msg.message_type, MessageType::Bot);
    assert_eq!(req.msg.message_state, MESSAGE_STATE_FINISH);
    assert_eq!(req.msg.item_list.0.len(), 1);
    let other = SendMessageRequest::compose(
        ToUserId::from("alice".to_string()),
        MessageItems::text("hi".to_string()),
        Some(ContextToken("given".to_string())),
        &SessionContext::default(),
    )
    .unwrap();
    assert_ne!(other.msg.client_id, req.msg.client_id);
    assert_eq!(other.msg.context_token.as_str(), "given");
}

#[test]
fn send_message_without_context_token_fails() {
    let r = SendMessageRequest::compose(
        ToUserId::from("alice".to_string()),
        MessageItems::text("hi".to_string()),
        None,
        &SessionContext::default(),
    );
    assert_eq!(r.unwrap_err(), WechatError::SessionNotInitialized);
}

#[test]
fn get_config_request_and_answers() {
    let req = GetConfigRequest::new(ToUserId::from("bob".to_string()), None, &session()).unwrap();
    assert_eq!(req.ilink_user_id.user_id().as_str(), "bob");
    assert_eq!(req.context_token.as_str(), "ctx");
    assert!(GetConfigRequest::new(ToUserId::from("bob".to_string()), None, &SessionContext::default()).is_err());
    let ok = GetConfigResponse::Success { ret: 0, typing_ticket: TypingTicket("tt".to_string()) };
    assert_eq!(ok.into_result().unwrap().as_str(), "tt");
    let err = GetConfigResponse::Failure { ret: -1, errmsg: None };
    assert_eq!(err.into_result().unwrap_err(), WechatError::GetConfigFailed { ret: -1, errmsg: None });
}

#[test]
fn typing_requests_and_answers() {
    let ticket = TypingTicket("tt".to_string());
    let on = SendTypingRequest::typing(ToUserId::from("bob".to_string()), &ticket);
    assert_eq!(on.status, SendTypingStatus::Typing);
    assert_eq!(on.status.code(), 1);
    assert_eq!(on.typing_ticket.as_str(), "tt");
    let off = SendTypingRequest::cancel(ToUserId::from("bob".to_string()), &ticket);
    assert_eq!(off.status.code(), 2);
    assert!(SendTypingResponse::Success { ret: 0 }.into_result().is_ok());
    assert_eq!(
        SendTypingResponse::Failure { ret: 3, errmsg: "no".to_string() }.into_result().unwrap_err(),
        WechatError::SendTypingFailed { ret: 3, errmsg: "no".to_string() }
    );
}
