use wechat_sdk::account::WechatUserId;
use wechat_sdk::client::apis::get_updates::{GetUpdatesResponse, WechatMessages};
use wechat_sdk::client::message::{
    context_token_for, ContextToken, FromUserId, ImageItem, CdnMedia, MessageId, MessageItem,
    MessageItemValue, MessageItemValueType, MessageItems, MessageType, SessionContext, TextItem,
    ToUserId, UnsupportedItem, VoiceItem, WechatMessage,
};
use wechat_sdk::error::WechatError;

fn media() -> CdnMedia {
    CdnMedia { aes_key: "k".to_string(), encrypt_query_param: "q".to_string(), full_url: "u".to_string() }
}

fn message(token: &str) -> WechatMessage {
    WechatMessage {
        message_id: MessageId("m".to_string()),
        context_token: ContextToken(token.to_string()),
        from_user_id: FromUserId::from("alice".to_string()),
        to_user_id: ToUserId::from("bot".to_string()),
        group_id: None,
        session_id: None,
        wechat_message_id: Some(1),
        seq: None,
        message_type: MessageType::User,
        message_state: 2,
        items: MessageItems::text("hi".to_string()),
        create_time_ms: None,
        update_time_ms: None,
        delete_time_ms: None,
    }
}

#[test]
fn item_from_text_is_a_text_item() {
    let item = MessageItem::from("hello".to_string());
    assert_eq!(item.value_type, MessageItemValueType::Text);
    assert!(matches!(&item.value, MessageItemValue::Text { text_item: TextItem { text } } if text == "hello"));
    assert!(item.ref_msg.is_none() && item.is_completed.is_none());
    let items = MessageItems::text("x".to_string());
    assert_eq!(items.0.len(), 1);
}

#[test]
fn item_kind_follows_content() {
    let image = ImageItem {
        hd_size: 1,
        mid_size: 2,
        thumb_height: 3,
        thumb_width: 4,
        thumb_size: 5,
        aes_key: "a".to_string(),
        media: media(),
    };
    assert_eq!(MessageItem::from(MessageItemValue::from(image)).value_type, MessageItemValueType::Image);
    let unsupported = MessageItemValue::from(UnsupportedItem::new("?".to_string()));
    assert_eq!(MessageItemValueType::of(&unsupported), MessageItemValueType::Unsupported);
}

#[test]
fn voice_item_is_recorded_with_video_kind() {
    let voice = VoiceItem {
        bits_per_sample: 16,
        encode_type: 1,
        playtime: 3,
        sample_rate: 8000,
        media: media(),
        text: None,
    };
    let item = MessageItem::from(MessageItemValue::from(voice));
    assert_eq!(item.value_type, MessageItemValueType::Video);
    assert_eq!(item.value_type.code(), 5);
}

#[test]
fn wire_codes() {
    assert_eq!(MessageType::User.code(), 1);
    assert_eq!(MessageType::Bot.code(), 2);
    assert_eq!(MessageType::from_code(3), None);
    for t in [
        MessageItemValueType::Text,
        MessageItemValueType::Image,
        MessageItemValueType::Voice,
        MessageItemValueType::File,
        MessageItemValueType::Video,
        MessageItemValueType::Unsupported,
    ] {
        assert_eq!(MessageItemValueType::from_code(t.code()), Some(t));
    }
    assert_eq!(MessageItemValueType::Unsupported.code(), 8);
    assert_eq!(MessageItemValueType::from_code(6), None);
}

#[test]
fn user_id_conversions() {
    let from = FromUserId::from(WechatUserId("u1".to_string()));
    let to = ToUserId::from(&from);
    assert_eq!(to.user_id().as_str(), "u1");
    assert_eq!(FromUserId::from(&to), from);
}

#[test]
fn updates_take_last_context_token_and_new_cursor() {
    let previous = SessionContext { context_token: Some(ContextToken("old".to_string())), get_updates_buf: Some("c0".to_string()) };
    assert_eq!(previous.updates_request().get_updates_buf, "c0");
    let resp = GetUpdatesResponse::Success {
        msgs: WechatMessages(vec![message("t1"), message("t2")]),
        get_updates_buf: Some("c1".to_string()),
    };
    let (msgs, next) = resp.resolve(previous).unwrap();
    assert_eq!(msgs.len(), 2);
    assert_eq!(next.context_token.unwrap().as_str(), "t2");
    assert_eq!(next.get_updates_buf.as_deref(), Some("c1"));
}

#[test]
fn empty_updates_keep_context_token() {
    let previous = SessionContext { context_token: Some(ContextToken("old".to_string())), get_updates_buf: None };
    assert_eq!(previous.updates_request().get_updates_buf, "");
    let resp = GetUpdatesResponse::Success { msgs: WechatMessages(vec![]), get_updates_buf: None };
    let (msgs, next) = resp.resolve(previous).unwrap();
    assert!(msgs.is_empty());
    assert_eq!(next.context_token.unwrap().as_str(), "old");
    assert!(next.get_updates_buf.is_none());
}

#[test]
fn update_error_is_reported() {
    let resp = GetUpdatesResponse::Failure { errcode: -14, errmsg: "session timeout".to_string() };
    assert_eq!(
        resp.resolve(SessionContext::default()).unwrap_err(),
        WechatError::GetUpdatesFailed { errcode: -14, errmsg: "session timeout".to_string() }
    );
}

#[test]
fn explicit_context_token_wins_over_stored() {
    let session = SessionContext { context_token: Some(ContextToken("stored".to_string())), get_updates_buf: None };
    assert_eq!(context_token_for(Some(ContextToken("given".to_string())), &session).unwrap().as_str(), "given");
    assert_eq!(context_token_for(None, &session).unwrap().as_str(), "stored");
    assert_eq!(
        context_token_for(None, &SessionContext::default()).unwrap_err(),
        WechatError::SessionNotInitialized
    );
}

#[test]
fn conversions_from_str_and_item() {
    let v = MessageItemValue::from("hey");
    assert!(matches!(&v, MessageItemValue::Text { text_item: TextItem { text } } if text == "hey"));
    let item = MessageItem::from("hey");
    assert_eq!(item.value_type, MessageItemValueType::Text);
    assert!(matches!(&item.value, MessageItemValue::Text { text_item: TextItem { text } } if text == "hey"));
    assert!(item.ref_msg.is_none() && item.create_time_ms.is_none() && item.update_time_ms.is_none());
    let items = MessageItems::from(MessageItem::from("a"));
    assert_eq!(items.0.len(), 1);
    assert!(matches!(&items.0[0].value, MessageItemValue::Text { text_item: TextItem { text } } if text == "a"));
}

fn text_of(v: MessageItemValue) -> String {
    match v {
        MessageItemValue::Text { text_item } => text_item.text,
        _ => panic!("expected text"),
    }
}

#[test]
fn integers_become_their_decimal_text() {
    assert_eq!(text_of(MessageItemValue::from(0u8)), "0");
    assert_eq!(text_of(MessageItemValue::from(255u8)), "255");
    assert_eq!(text_of(MessageItemValue::from(65535u16)), "65535");
    assert_eq!(text_of(MessageItemValue::from(42u32)), "42");
    assert_eq!(text_of(MessageItemValue::from(u64::MAX)), u64::MAX.to_string());
    assert_eq!(text_of(MessageItemValue::from(u128::MAX)), u128::MAX.to_string());
    assert_eq!(text_of(MessageItemValue::from(1000usize)), "1000");
    assert_eq!(text_of(MessageItemValue::from(-128i8)), "-128");
    assert_eq!(text_of(MessageItemValue::from(-1i16)), "-1");
    assert_eq!(text_of(MessageItemValue::from(-2147483648i32)), "-2147483648");
    assert_eq!(text_of(MessageItemValue::from(i64::MIN)), i64::MIN.to_string());
    assert_eq!(text_of(MessageItemValue::from(i128::MIN)), i128::MIN.to_string());
    assert_eq!(text_of(MessageItemValue::from(i128::MAX)), i128::MAX.to_string());
    assert_eq!(text_of(MessageItemValue::from(-7isize)), "-7");
    assert_eq!(text_of(MessageItemValue::from(0i32)), "0");
}
