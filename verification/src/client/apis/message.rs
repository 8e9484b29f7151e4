//! Messages, their items and the identifiers they carry.
use crate::account::WechatUserId;
use crate::error::WechatError;
use crate::text::{decimal_text, decimal_text_spec, signed_decimal_text, signed_decimal_text_spec};
use vstd::prelude::*;

verus! {

/// Ticket that authorises typing notifications to a user.
#[derive(Debug)]
pub struct TypingTicket(pub String);

/// Client-side identifier of a message.
#[derive(Debug, PartialEq, Eq, PartialOrd, Ord)]
pub struct MessageId(pub String);

/// Token that ties replies to the conversation a message came from.
#[derive(Debug)]
pub struct ContextToken(pub String);

/// The user a message comes from.
#[derive(Debug, PartialEq, Eq, PartialOrd, Ord, Default)]
pub struct FromUserId(pub WechatUserId);

/// The user a message goes to.
#[derive(Debug, PartialEq, Eq, PartialOrd, Ord, Default)]
pub struct ToUserId(pub WechatUserId);

/// Who wrote a message.
#[derive(Debug, Clone, Copy, PartialEq, Eq)]
pub enum MessageType {
    User,
    Bot,
}

/// Kind of an item's content, as the item's `type` field gives it.
#[derive(Debug, Clone, Copy, PartialEq, Eq)]
pub enum MessageItemValueType {
    Text,
    Image,
    Voice,
    File,
    Video,
    Unsupported,
}

/// The items of a message.
#[derive(Debug, Default)]
pub struct MessageItems(pub Vec<MessageItem>);

/// One item of a message: its content and the data that goes with it.
#[derive(Debug)]
pub struct MessageItem {
    pub value_type: MessageItemValueType,
    pub value: MessageItemValue,
    pub ref_msg: Option<RefMessage>,
    pub is_completed: Option<bool>,
    pub create_time_ms: Option<i64>,
    pub update_time_ms: Option<i64>,
}

/// Content of an item.
#[derive(Debug)]
pub enum MessageItemValue {
    Text { text_item: TextItem },
    Image { image_item: ImageItem },
    Voice { voice_item: VoiceItem },
    File { file_item: FileItem },
    Video { video_item: VideoItem },
    Unsupported { unsupported_item: UnsupportedItem },
}

/// Text content.
#[derive(Debug)]
pub struct TextItem {
    pub text: String,
}

/// Image content.
#[derive(Debug)]
pub struct ImageItem {
    pub hd_size: usize,
    pub mid_size: usize,
    pub thumb_height: u32,
    pub thumb_width: u32,
    pub thumb_size: usize,
    pub aes_key: String,
    pub media: CdnMedia,
}

/// Voice content.
#[derive(Debug)]
pub struct VoiceItem {
    pub bits_per_sample: u8,
    pub encode_type: u16,
    pub playtime: u64,
    pub sample_rate: u32,
    pub media: CdnMedia,
    pub text: Option<String>,
}

/// File content.
#[derive(Debug)]
pub struct FileItem {
    pub file_name: String,
    pub len: usize,
    pub md5: String,
    pub media: CdnMedia,
}

/// Video content.
#[derive(Debug)]
pub struct VideoItem {
    pub play_length: u64,
    pub thumb_height: u32,
    pub thumb_width: u32,
    pub video_size: usize,
    pub video_md5: String,
    pub media: CdnMedia,
    pub thumb_media: CdnMedia,
}

/// Content of a kind this SDK does not model.
#[derive(Debug)]
pub struct UnsupportedItem {
    text: String,
}

/// A quoted item.
#[derive(Debug)]
pub struct RefMessage {
    pub message_item: Box<MessageItem>,
    pub title: Option<String>,
}

/// Location and key of an encrypted media file on the CDN.
#[derive(Debug)]
pub struct CdnMedia {
    pub aes_key: String,
    pub encrypt_query_param: String,
    pub full_url: String,
}

/// A message as the service delivers it.
#[derive(Debug)]
pub struct WechatMessage {
    pub message_id: MessageId,
    pub context_token: ContextToken,
    pub from_user_id: FromUserId,
    pub to_user_id: ToUserId,
    pub group_id: Option<String>,
    pub session_id: Option<String>,
    pub wechat_message_id: Option<u64>,
    pub seq: Option<usize>,
    pub message_type: MessageType,
    pub message_state: i64,
    pub items: MessageItems,
    pub create_time_ms: Option<i64>,
    pub update_time_ms: Option<i64>,
    pub delete_time_ms: Option<i64>,
}

/// What has been learnt from received messages: the latest context token and
/// the cursor for the next poll.
#[derive(Debug, Default)]
pub struct SessionContext {
    pub context_token: Option<ContextToken>,
    pub get_updates_buf: Option<String>,
}

impl Clone for ContextToken {
    fn clone(&self) -> (res: Self)
        ensures
            res == *self,
    {
        ContextToken(self.0.clone())
    }
}

impl Clone for TypingTicket {
    fn clone(&self) -> (res: Self)
        ensures
            res == *self,
    {
        TypingTicket(self.0.clone())
    }
}

impl Clone for MessageId {
    fn clone(&self) -> (res: Self)
        ensures
            res == *self,
    {
        MessageId(self.0.clone())
    }
}

impl Clone for FromUserId {
    fn clone(&self) -> (res: Self)
        ensures
            res == *self,
    {
        FromUserId(self.0.clone())
    }
}

impl Clone for ToUserId {
    fn clone(&self) -> (res: Self)
        ensures
            res == *self,
    {
        ToUserId(self.0.clone())
    }
}

impl TypingTicket {
    /// The ticket as text.
    pub fn as_str(&self) -> (res: &str)
        ensures
            res@ == self.0@,
    {
        self.0.as_str()
    }
}

impl ContextToken {
    /// The token as text.
    pub fn as_str(&self) -> (res: &str)
        ensures
            res@ == self.0@,
    {
        self.0.as_str()
    }
}

impl MessageId {
    /// The identifier as text.
    pub fn as_str(&self) -> (res: &str)
        ensures
            res@ == self.0@,
    {
        self.0.as_str()
    }
}

impl FromUserId {
    /// The user's identifier.
    pub fn user_id(&self) -> (res: &WechatUserId)
        ensures
            *res == self.0,
    {
        &self.0
    }
}

impl ToUserId {
    /// The user's identifier.
    pub fn user_id(&self) -> (res: &WechatUserId)
        ensures
            *res == self.0,
    {
        &self.0
    }
}

impl From<WechatUserId> for FromUserId {
    fn from(value: WechatUserId) -> (res: Self) {
        FromUserId(value)
    }
}

impl vstd::std_specs::convert::FromSpecImpl<WechatUserId> for FromUserId {
    open spec fn obeys_from_spec() -> bool {
        true
    }

    open spec fn from_spec(v: WechatUserId) -> Self {
        FromUserId(v)
    }
}

impl From<WechatUserId> for ToUserId {
    fn from(value: WechatUserId) -> (res: Self) {
        ToUserId(value)
    }
}

impl vstd::std_specs::convert::FromSpecImpl<WechatUserId> for ToUserId {
    open spec fn obeys_from_spec() -> bool {
        true
    }

    open spec fn from_spec(v: WechatUserId) -> Self {
        ToUserId(v)
    }
}

impl From<String> for FromUserId {
    fn from(value: String) -> (res: Self) {
        FromUserId(WechatUserId(value))
    }
}

impl vstd::std_specs::convert::FromSpecImpl<String> for FromUserId {
    open spec fn obeys_from_spec() -> bool {
        true
    }

    open spec fn from_spec(v: String) -> Self {
        FromUserId(WechatUserId(v))
    }
}

impl From<String> for ToUserId {
    fn from(value: String) -> (res: Self) {
        ToUserId(WechatUserId(value))
    }
}

impl vstd::std_specs::convert::FromSpecImpl<String> for ToUserId {
    open spec fn obeys_from_spec() -> bool {
        true
    }

    open spec fn from_spec(v: String) -> Self {
        ToUserId(WechatUserId(v))
    }
}

impl<'a> From<&'a ToUserId> for FromUserId {
    fn from(value: &'a ToUserId) -> (res: Self) {
        FromUserId(value.0.clone())
    }
}

impl<'a> vstd::std_specs::convert::FromSpecImpl<&'a ToUserId> for FromUserId {
    open spec fn obeys_from_spec() -> bool {
        true
    }

    open spec fn from_spec(v: &'a ToUserId) -> Self {
        FromUserId(v.0)
    }
}

impl<'a> From<&'a FromUserId> for ToUserId {
    fn from(value: &'a FromUserId) -> (res: Self) {
        ToUserId(value.0.clone())
    }
}

impl<'a> vstd::std_specs::convert::FromSpecImpl<&'a FromUserId> for ToUserId {
    open spec fn obeys_from_spec() -> bool {
        true
    }

    open spec fn from_spec(v: &'a FromUserId) -> Self {
        ToUserId(v.0)
    }
}

/// Wire code of a message type.
pub open spec fn message_type_code_spec(t: MessageType) -> u8 {
    match t {
        MessageType::User => 1,
        MessageType::Bot => 2,
    }
}

impl MessageType {
    /// The type's wire code.
    pub fn code(&self) -> (res: u8)
        ensures
            res == message_type_code_spec(*self),
    {
        match self {
            MessageType::User => 1,
            MessageType::Bot => 2,
        }
    }

    /// The type with wire code `code`, if any.
    pub fn from_code(code: u8) -> (res: Option<MessageType>)
        ensures
            match res {
                Some(t) => message_type_code_spec(t) == code,
                None => code != 1 && code != 2,
            },
    {
        if code == 1 {
            Some(MessageType::User)
        } else if code == 2 {
            Some(MessageType::Bot)
        } else {
            None
        }
    }
}

/// Wire code of an item kind.
pub open spec fn value_type_code_spec(t: MessageItemValueType) -> u8 {
    match t {
        MessageItemValueType::Text => 1,
        MessageItemValueType::Image => 2,
        MessageItemValueType::Voice => 3,
        MessageItemValueType::File => 4,
        MessageItemValueType::Video => 5,
        MessageItemValueType::Unsupported => 8,
    }
}

/// The kind recorded for an item built from its content. A voice item is
/// recorded with the video kind.
pub open spec fn value_type_of_spec(v: MessageItemValue) -> MessageItemValueType {
    match v {
        MessageItemValue::Text { .. } => MessageItemValueType::Text,
        MessageItemValue::Image { .. } => MessageItemValueType::Image,
        MessageItemValue::Voice { .. } => MessageItemValueType::Video,
        MessageItemValue::File { .. } => MessageItemValueType::File,
        MessageItemValue::Video { .. } => MessageItemValueType::Video,
        MessageItemValue::Unsupported { .. } => MessageItemValueType::Unsupported,
    }
}

impl MessageItemValueType {
    /// The kind's wire code.
    pub fn code(&self) -> (res: u8)
        ensures
            res == value_type_code_spec(*self),
    {
        match self {
            MessageItemValueType::Text => 1,
            MessageItemValueType::Image => 2,
            MessageItemValueType::Voice => 3,
            MessageItemValueType::File => 4,
            MessageItemValueType::Video => 5,
            MessageItemValueType::Unsupported => 8,
        }
    }

    /// The kind with wire code `code`, if any.
    pub fn from_code(code: u8) -> (res: Option<MessageItemValueType>)
        ensures
            match res {
                Some(t) => value_type_code_spec(t) == code,
                None => !(1 <= code <= 5 || code == 8),
            },
    {
        if code == 1 {
            Some(MessageItemValueType::Text)
        } else if code == 2 {
            Some(MessageItemValueType::Image)
        } else if code == 3 {
            Some(MessageItemValueType::Voice)
        } else if code == 4 {
            Some(MessageItemValueType::File)
        } else if code == 5 {
            Some(MessageItemValueType::Video)
        } else if code == 8 {
            Some(MessageItemValueType::Unsupported)
        } else {
            None
        }
    }

    /// The kind recorded for an item with content `value`.
    pub fn of(value: &MessageItemValue) -> (res: MessageItemValueType)
        ensures
            res == value_type_of_spec(*value),
    {
        match value {
            MessageItemValue::Text { .. } => MessageItemValueType::Text,
            MessageItemValue::Image { .. } => MessageItemValueType::Image,
            MessageItemValue::Voice { .. } => MessageItemValueType::Video,
            MessageItemValue::File { .. } => MessageItemValueType::File,
            MessageItemValue::Video { .. } => MessageItemValueType::Video,
            MessageItemValue::Unsupported { .. } => MessageItemValueType::Unsupported,
        }
    }
}

impl<'a> From<&'a MessageItemValue> for MessageItemValueType {
    fn from(value: &'a MessageItemValue) -> (res: Self) {
        MessageItemValueType::of(value)
    }
}

impl<'a> vstd::std_specs::convert::FromSpecImpl<&'a MessageItemValue> for MessageItemValueType {
    open spec fn obeys_from_spec() -> bool {
        true
    }

    open spec fn from_spec(v: &'a MessageItemValue) -> Self {
        value_type_of_spec(*v)
    }
}

impl UnsupportedItem {
    /// Content of an unsupported kind, with the text the service gives for it.
    pub fn new(text: String) -> (res: UnsupportedItem)
        ensures
            res.text() == text,
    {
        UnsupportedItem { text }
    }

    /// The text the service gives for the content.
    pub closed spec fn text(&self) -> String {
        self.text
    }

    /// The text the service gives for the content.
    pub fn as_str(&self) -> (res: &str)
        ensures
            res@ == self.text()@,
    {
        self.text.as_str()
    }
}

impl From<String> for MessageItemValue {
    fn from(value: String) -> (res: Self) {
        MessageItemValue::Text { text_item: TextItem { text: value } }
    }
}

impl vstd::std_specs::convert::FromSpecImpl<String> for MessageItemValue {
    open spec fn obeys_from_spec() -> bool {
        true
    }

    open spec fn from_spec(v: String) -> Self {
        MessageItemValue::Text { text_item: TextItem { text: v } }
    }
}

impl<'a> From<&'a str> for MessageItemValue {
    /// Text content holding a copy of `value`.
    fn from(value: &'a str) -> (res: Self)
        ensures
            res matches MessageItemValue::Text { text_item } && text_item.text@ == value@,
    {
        MessageItemValue::Text { text_item: TextItem { text: value.to_owned() } }
    }
}

/// vstd gives no law that a `String` is determined by its characters, so the
/// conversion cannot promise equality with one chosen string; `from` states the
/// text instead.
impl<'a> vstd::std_specs::convert::FromSpecImpl<&'a str> for MessageItemValue {
    open spec fn obeys_from_spec() -> bool {
        false
    }

    open spec fn from_spec(v: &'a str) -> Self {
        MessageItemValue::Text { text_item: TextItem { text: choose|s: String| s@ == v@ } }
    }
}

impl From<u8> for MessageItemValue {
    /// Text content holding the decimal text of `value`.
    fn from(value: u8) -> (res: Self)
        ensures
            res matches MessageItemValue::Text { text_item } && text_item.text@ == decimal_text_spec(value as nat),
    {
        MessageItemValue::Text { text_item: TextItem { text: decimal_text(value as u128) } }
    }
}

/// Only the text is stated, by `from` (see the `&str` conversion).
impl vstd::std_specs::convert::FromSpecImpl<u8> for MessageItemValue {
    open spec fn obeys_from_spec() -> bool {
        false
    }

    open spec fn from_spec(v: u8) -> Self {
        MessageItemValue::Text { text_item: TextItem { text: choose|s: String| s@ == decimal_text_spec(v as nat) } }
    }
}

impl From<u16> for MessageItemValue {
    /// Text content holding the decimal text of `value`.
    fn from(value: u16) -> (res: Self)
        ensures
            res matches MessageItemValue::Text { text_item } && text_item.text@ == decimal_text_spec(value as nat),
    {
        MessageItemValue::Text { text_item: TextItem { text: decimal_text(value as u128) } }
    }
}

/// Only the text is stated, by `from` (see the `&str` conversion).
impl vstd::std_specs::convert::FromSpecImpl<u16> for MessageItemValue {
    open spec fn obeys_from_spec() -> bool {
        false
    }

    open spec fn from_spec(v: u16) -> Self {
        MessageItemValue::Text { text_item: TextItem { text: choose|s: String| s@ == decimal_text_spec(v as nat) } }
    }
}

impl From<u32> for MessageItemValue {
    /// Text content holding the decimal text of `value`.
    fn from(value: u32) -> (res: Self)
        ensures
            res matches MessageItemValue::Text { text_item } && text_item.text@ == decimal_text_spec(value as nat),
    {
        MessageItemValue::Text { text_item: TextItem { text: decimal_text(value as u128) } }
    }
}

/// Only the text is stated, by `from` (see the `&str` conversion).
impl vstd::std_specs::convert::FromSpecImpl<u32> for MessageItemValue {
    open spec fn obeys_from_spec() -> bool {
        false
    }

    open spec fn from_spec(v: u32) -> Self {
        MessageItemValue::Text { text_item: TextItem { text: choose|s: String| s@ == decimal_text_spec(v as nat) } }
    }
}

impl From<u64> for MessageItemValue {
    /// Text content holding the decimal text of `value`.
    fn from(value: u64) -> (res: Self)
        ensures
            res matches MessageItemValue::Text { text_item } && text_item.text@ == decimal_text_spec(value as nat),
    {
        MessageItemValue::Text { text_item: TextItem { text: decimal_text(value as u128) } }
    }
}

/// Only the text is stated, by `from` (see the `&str` conversion).
impl vstd::std_specs::convert::FromSpecImpl<u64> for MessageItemValue {
    open spec fn obeys_from_spec() -> bool {
        false
    }

    open spec fn from_spec(v: u64) -> Self {
        MessageItemValue::Text { text_item: TextItem { text: choose|s: String| s@ == decimal_text_spec(v as nat) } }
    }
}

impl From<u128> for MessageItemValue {
    /// Text content holding the decimal text of `value`.
    fn from(value: u128) -> (res: Self)
        ensures
            res matches MessageItemValue::Text { text_item } && text_item.text@ == decimal_text_spec(value as nat),
    {
        MessageItemValue::Text { text_item: TextItem { text: decimal_text(value as u128) } }
    }
}

/// Only the text is stated, by `from` (see the `&str` conversion).
impl vstd::std_specs::convert::FromSpecImpl<u128> for MessageItemValue {
    open spec fn obeys_from_spec() -> bool {
        false
    }

    open spec fn from_spec(v: u128) -> Self {
        MessageItemValue::Text { text_item: TextItem { text: choose|s: String| s@ == decimal_text_spec(v as nat) } }
    }
}

impl From<usize> for MessageItemValue {
    /// Text content holding the decimal text of `value`.
    fn from(value: usize) -> (res: Self)
        ensures
            res matches MessageItemValue::Text { text_item } && text_item.text@ == decimal_text_spec(value as nat),
    {
        MessageItemValue::Text { text_item: TextItem { text: decimal_text(value as u128) } }
    }
}

/// Only the text is stated, by `from` (see the `&str` conversion).
impl vstd::std_specs::convert::FromSpecImpl<usize> for MessageItemValue {
    open spec fn obeys_from_spec() -> bool {
        false
    }

    open spec fn from_spec(v: usize) -> Self {
        MessageItemValue::Text { text_item: TextItem { text: choose|s: String| s@ == decimal_text_spec(v as nat) } }
    }
}

impl From<i8> for MessageItemValue {
    /// Text content holding the decimal text of `value`.
    fn from(value: i8) -> (res: Self)
        ensures
            res matches MessageItemValue::Text { text_item } && text_item.text@ == signed_decimal_text_spec(value as int),
    {
        MessageItemValue::Text { text_item: TextItem { text: signed_decimal_text(value as i128) } }
    }
}

/// Only the text is stated, by `from` (see the `&str` conversion).
impl vstd::std_specs::convert::FromSpecImpl<i8> for MessageItemValue {
    open spec fn obeys_from_spec() -> bool {
        false
    }

    open spec fn from_spec(v: i8) -> Self {
        MessageItemValue::Text { text_item: TextItem { text: choose|s: String| s@ == signed_decimal_text_spec(v as int) } }
    }
}

impl From<i16> for MessageItemValue {
    /// Text content holding the decimal text of `value`.
    fn from(value: i16) -> (res: Self)
        ensures
            res matches MessageItemValue::Text { text_item } && text_item.text@ == signed_decimal_text_spec(value as int),
    {
        MessageItemValue::Text { text_item: TextItem { text: signed_decimal_text(value as i128) } }
    }
}

/// Only the text is stated, by `from` (see the `&str` conversion).
impl vstd::std_specs::convert::FromSpecImpl<i16> for MessageItemValue {
    open spec fn obeys_from_spec() -> bool {
        false
    }

    open spec fn from_spec(v: i16) -> Self {
        MessageItemValue::Text { text_item: TextItem { text: choose|s: String| s@ == signed_decimal_text_spec(v as int) } }
    }
}

impl From<i32> for MessageItemValue {
    /// Text content holding the decimal text of `value`.
    fn from(value: i32) -> (res: Self)
        ensures
            res matches MessageItemValue::Text { text_item } && text_item.text@ == signed_decimal_text_spec(value as int),
    {
        MessageItemValue::Text { text_item: TextItem { text: signed_decimal_text(value as i128) } }
    }
}

/// Only the text is stated, by `from` (see the `&str` conversion).
impl vstd::std_specs::convert::FromSpecImpl<i32> for MessageItemValue {
    open spec fn obeys_from_spec() -> bool {
        false
    }

    open spec fn from_spec(v: i32) -> Self {
        MessageItemValue::Text { text_item: TextItem { text: choose|s: String| s@ == signed_decimal_text_spec(v as int) } }
    }
}

impl From<i64> for MessageItemValue {
    /// Text content holding the decimal text of `value`.
    fn from(value: i64) -> (res: Self)
        ensures
            res matches MessageItemValue::Text { text_item } && text_item.text@ == signed_decimal_text_spec(value as int),
    {
        MessageItemValue::Text { text_item: TextItem { text: signed_decimal_text(value as i128) } }
    }
}

/// Only the text is stated, by `from` (see the `&str` conversion).
impl vstd::std_specs::convert::FromSpecImpl<i64> for MessageItemValue {
    open spec fn obeys_from_spec() -> bool {
        false
    }

    open spec fn from_spec(v: i64) -> Self {
        MessageItemValue::Text { text_item: TextItem { text: choose|s: String| s@ == signed_decimal_text_spec(v as int) } }
    }
}

impl From<i128> for MessageItemValue {
    /// Text content holding the decimal text of `value`.
    fn from(value: i128) -> (res: Self)
        ensures
            res matches MessageItemValue::Text { text_item } && text_item.text@ == signed_decimal_text_spec(value as int),
    {
        MessageItemValue::Text { text_item: TextItem { text: signed_decimal_text(value as i128) } }
    }
}

/// Only the text is stated, by `from` (see the `&str` conversion).
impl vstd::std_specs::convert::FromSpecImpl<i128> for MessageItemValue {
    open spec fn obeys_from_spec() -> bool {
        false
    }

    open spec fn from_spec(v: i128) -> Self {
        MessageItemValue::Text { text_item: TextItem { text: choose|s: String| s@ == signed_decimal_text_spec(v as int) } }
    }
}

impl From<isize> for MessageItemValue {
    /// Text content holding the decimal text of `value`.
    fn from(value: isize) -> (res: Self)
        ensures
            res matches MessageItemValue::Text { text_item } && text_item.text@ == signed_decimal_text_spec(value as int),
    {
        MessageItemValue::Text { text_item: TextItem { text: signed_decimal_text(value as i128) } }
    }
}

/// Only the text is stated, by `from` (see the `&str` conversion).
impl vstd::std_specs::convert::FromSpecImpl<isize> for MessageItemValue {
    open spec fn obeys_from_spec() -> bool {
        false
    }

    open spec fn from_spec(v: isize) -> Self {
        MessageItemValue::Text { text_item: TextItem { text: choose|s: String| s@ == signed_decimal_text_spec(v as int) } }
    }
}

impl From<TextItem> for MessageItemValue {
    fn from(value: TextItem) -> (res: Self) {
        MessageItemValue::Text { text_item: value }
    }
}

impl vstd::std_specs::convert::FromSpecImpl<TextItem> for MessageItemValue {
    open spec fn obeys_from_spec() -> bool {
        true
    }

    open spec fn from_spec(v: TextItem) -> Self {
        MessageItemValue::Text { text_item: v }
    }
}

impl From<ImageItem> for MessageItemValue {
    fn from(value: ImageItem) -> (res: Self) {
        MessageItemValue::Image { image_item: value }
    }
}

impl vstd::std_specs::convert::FromSpecImpl<ImageItem> for MessageItemValue {
    open spec fn obeys_from_spec() -> bool {
        true
    }

    open spec fn from_spec(v: ImageItem) -> Self {
        MessageItemValue::Image { image_item: v }
    }
}

impl From<VoiceItem> for MessageItemValue {
    fn from(value: VoiceItem) -> (res: Self) {
        MessageItemValue::Voice { voice_item: value }
    }
}

impl vstd::std_specs::convert::FromSpecImpl<VoiceItem> for MessageItemValue {
    open spec fn obeys_from_spec() -> bool {
        true
    }

    open spec fn from_spec(v: VoiceItem) -> Self {
        MessageItemValue::Voice { voice_item: v }
    }
}

impl From<FileItem> for MessageItemValue {
    fn from(value: FileItem) -> (res: Self) {
        MessageItemValue::File { file_item: value }
    }
}

impl vstd::std_specs::convert::FromSpecImpl<FileItem> for MessageItemValue {
    open spec fn obeys_from_spec() -> bool {
        true
    }

    open spec fn from_spec(v: FileItem) -> Self {
        MessageItemValue::File { file_item: v }
    }
}

impl From<VideoItem> for MessageItemValue {
    fn from(value: VideoItem) -> (res: Self) {
        MessageItemValue::Video { video_item: value }
    }
}

impl vstd::std_specs::convert::FromSpecImpl<VideoItem> for MessageItemValue {
    open spec fn obeys_from_spec() -> bool {
        true
    }

    open spec fn from_spec(v: VideoItem) -> Self {
        MessageItemValue::Video { video_item: v }
    }
}

impl From<UnsupportedItem> for MessageItemValue {
    fn from(value: UnsupportedItem) -> (res: Self) {
        MessageItemValue::Unsupported { unsupported_item: value }
    }
}

impl vstd::std_specs::convert::FromSpecImpl<UnsupportedItem> for MessageItemValue {
    open spec fn obeys_from_spec() -> bool {
        true
    }

    open spec fn from_spec(v: UnsupportedItem) -> Self {
        MessageItemValue::Unsupported { unsupported_item: v }
    }
}

/// The item built from content alone: its kind follows the content and every
/// other field is empty.
pub open spec fn item_from_value_spec(v: MessageItemValue) -> MessageItem {
    MessageItem {
        value_type: value_type_of_spec(v),
        value: v,
        ref_msg: None,
        is_completed: None,
        create_time_ms: None,
        update_time_ms: None,
    }
}

impl From<MessageItemValue> for MessageItem {
    fn from(value: MessageItemValue) -> (res: Self) {
        let value_type = MessageItemValueType::of(&value);
        MessageItem {
            value_type,
            value,
            ref_msg: None,
            is_completed: None,
            create_time_ms: None,
            update_time_ms: None,
        }
    }
}

impl vstd::std_specs::convert::FromSpecImpl<MessageItemValue> for MessageItem {
    open spec fn obeys_from_spec() -> bool {
        true
    }

    open spec fn from_spec(v: MessageItemValue) -> Self {
        item_from_value_spec(v)
    }
}

impl From<String> for MessageItem {
    fn from(value: String) -> (res: Self) {
        MessageItem::from(MessageItemValue::from(value))
    }
}

impl vstd::std_specs::convert::FromSpecImpl<String> for MessageItem {
    open spec fn obeys_from_spec() -> bool {
        true
    }

    open spec fn from_spec(v: String) -> Self {
        item_from_value_spec(MessageItemValue::Text { text_item: TextItem { text: v } })
    }
}

impl From<MessageItem> for MessageItems {
    /// The items of a message with the single item `value`.
    fn from(value: MessageItem) -> (res: Self)
        ensures
            res.0@ == seq![value],
    {
        MessageItems::single(value)
    }
}

/// vstd gives no law that a `Vec` is determined by its contents, so the
/// conversion cannot promise equality with one chosen vector; `from` states the
/// contents instead.
impl vstd::std_specs::convert::FromSpecImpl<MessageItem> for MessageItems {
    open spec fn obeys_from_spec() -> bool {
        false
    }

    open spec fn from_spec(v: MessageItem) -> Self {
        MessageItems(choose|items: Vec<MessageItem>| items@ == seq![v])
    }
}

impl<'a> From<&'a str> for MessageItem {
    /// A text item holding a copy of `value`, with every other field empty.
    fn from(value: &'a str) -> (res: Self)
        ensures
            res.value_type == MessageItemValueType::Text,
            res.value matches MessageItemValue::Text { text_item } && text_item.text@ == value@,
            res.ref_msg is None,
            res.is_completed is None,
            res.create_time_ms is None,
            res.update_time_ms is None,
    {
        MessageItem::from(MessageItemValue::from(value))
    }
}

/// As for `MessageItemValue`, only the text is stated, by `from`.
impl<'a> vstd::std_specs::convert::FromSpecImpl<&'a str> for MessageItem {
    open spec fn obeys_from_spec() -> bool {
        false
    }

    open spec fn from_spec(v: &'a str) -> Self {
        item_from_value_spec(
            MessageItemValue::Text { text_item: TextItem { text: choose|s: String| s@ == v@ } },
        )
    }
}

impl MessageItems {
    /// The items of a message with the single item `item`.
    pub fn single(item: MessageItem) -> (res: MessageItems)
        ensures
            res.0@ == seq![item],
    {
        let mut items = Vec::new();
        items.push(item);
        MessageItems(items)
    }

    /// The items of a message with a single text item holding `text`.
    pub fn text(text: String) -> (res: MessageItems)
        ensures
            res.0@ == seq![item_from_value_spec(MessageItemValue::Text { text_item: TextItem { text } })],
    {
        MessageItems::single(MessageItem::from(MessageItemValue::from(text)))
    }
}

/// The context token a request goes with: the one given, else the one stored.
pub open spec fn chosen_context_token(given: Option<ContextToken>, stored: Option<ContextToken>) -> Option<
    ContextToken,
> {
    match given {
        Some(t) => Some(t),
        None => stored,
    }
}

/// The context token a request goes with: the one given, else the one stored in
/// the session; fails when there is neither.
pub fn context_token_for(given: Option<ContextToken>, session: &SessionContext) -> (res: Result<
    ContextToken,
    WechatError,
>)
    ensures
        match chosen_context_token(given, session.context_token) {
            Some(t) => res == Ok::<ContextToken, WechatError>(t),
            None => res == Err::<ContextToken, WechatError>(WechatError::SessionNotInitialized),
        },
{
    match given {
        Some(t) => Ok(t),
        None => match &session.context_token {
            Some(t) => Ok(t.clone()),
            None => Err(WechatError::SessionNotInitialized),
        },
    }
}

/// The kind recorded for content follows its variant: text, image, file and
/// unsupported content get their own kind, and voice and video content are both
/// recorded as video. An item built from content keeps it and leaves every
/// other field empty.
pub proof fn item_kind_follows_content(v: MessageItemValue)
    ensures
        (v is Text) <==> value_type_of_spec(v) == MessageItemValueType::Text,
        (v is Image) <==> value_type_of_spec(v) == MessageItemValueType::Image,
        (v is File) <==> value_type_of_spec(v) == MessageItemValueType::File,
        (v is Unsupported) <==> value_type_of_spec(v) == MessageItemValueType::Unsupported,
        (v is Voice || v is Video) <==> value_type_of_spec(v) == MessageItemValueType::Video,
        value_type_of_spec(v) != MessageItemValueType::Voice,
        item_from_value_spec(v).value_type == value_type_of_spec(v),
        item_from_value_spec(v).value == v,
        item_from_value_spec(v).ref_msg is None,
        item_from_value_spec(v).is_completed is None,
        item_from_value_spec(v).create_time_ms is None,
        item_from_value_spec(v).update_time_ms is None,
{
}

/// The wire codes: a message from a user is 1 and from the bot 2; item kinds are
/// text 1, image 2, voice 3, file 4, video 5 and unsupported 8. Distinct kinds
/// have distinct codes, so reading a written code gives the kind back.
pub proof fn wire_codes_are_fixed(a: MessageItemValueType, b: MessageItemValueType)
    ensures
        message_type_code_spec(MessageType::User) == 1,
        message_type_code_spec(MessageType::Bot) == 2,
        value_type_code_spec(MessageItemValueType::Text) == 1,
        value_type_code_spec(MessageItemValueType::Image) == 2,
        value_type_code_spec(MessageItemValueType::Voice) == 3,
        value_type_code_spec(MessageItemValueType::File) == 4,
        value_type_code_spec(MessageItemValueType::Video) == 5,
        value_type_code_spec(MessageItemValueType::Unsupported) == 8,
        value_type_code_spec(a) == value_type_code_spec(b) ==> a == b,
{
}

/// The token a request goes with: a given token always, else the stored one,
/// and none when neither exists.
pub proof fn context_token_choice(given: ContextToken, stored: Option<ContextToken>)
    ensures
        chosen_context_token(Some(given), stored) == Some(given),
        chosen_context_token(None, stored) == stored,
{
}

} // verus!
