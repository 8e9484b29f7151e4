//! Sending a reply into the current conversation.
use crate::client::message::{
    chosen_context_token, context_token_for, ContextToken, MessageItems, MessageType, SessionContext,
    ToUserId,
};
use crate::error::WechatError;
use vstd::prelude::*;

verus! {

/// Endpoint that sends a message.
pub const SEND_MESSAGE_ENDPOINT: &'static str = "/ilink/bot/sendmessage";

/// State of a message that is complete.
pub const MESSAGE_STATE_FINISH: i64 = 2;

/// The message inside a `sendmessage` request.
#[derive(Debug)]
pub struct OutgoingMessage {
    pub client_id: String,
    pub context_token: ContextToken,
    pub from_user_id: String,
    pub to_user_id: ToUserId,
    pub message_type: MessageType,
    pub message_state: i64,
    pub item_list: MessageItems,
}

/// Body of a `sendmessage` request.
#[derive(Debug)]
pub struct SendMessageRequest {
    pub msg: OutgoingMessage,
}

/// `c` is a lower-case hexadecimal digit.
pub open spec fn is_lower_hex(c: char) -> bool {
    ('0' <= c && c <= '9') || ('a' <= c && c <= 'f')
}

/// `s` is a random (version 4) UUID in hyphenated lower-case form.
pub open spec fn is_uuid_v4_text(s: Seq<char>) -> bool {
    &&& s.len() == 36
    &&& forall|i: int|
        0 <= i < 36 ==> if i == 8 || i == 13 || i == 18 || i == 23 {
            s[i] == '-'
        } else {
            is_lower_hex(#[trigger] s[i])
        }
    &&& s[14] == '4'
    &&& (s[19] == '8' || s[19] == '9' || s[19] == 'a' || s[19] == 'b')
}

/// Calls `uuid::Uuid::new_v4()` and formats it with `to_string`. The result is
/// random; it is believed to be a hyphenated lower-case version-4 UUID.
#[verifier::external_body]
fn new_client_id() -> (res: String)
    ensures
        is_uuid_v4_text(res@),
{
    uuid::Uuid::new_v4().to_string()
}

impl SendMessageRequest {
    /// The bot's finished message with `items` to `user_id` in the conversation
    /// of `context_token`, under the client id `client_id`.
    pub fn new(client_id: String, to_user_id: ToUserId, context_token: ContextToken, items: MessageItems) -> (res:
        SendMessageRequest)
        ensures
            res.msg.client_id == client_id,
            res.msg.context_token == context_token,
            res.msg.from_user_id@ == Seq::<char>::empty(),
            res.msg.to_user_id == to_user_id,
            res.msg.message_type == MessageType::Bot,
            res.msg.message_state == MESSAGE_STATE_FINISH,
            res.msg.item_list == items,
    {
        SendMessageRequest {
            msg: OutgoingMessage {
                client_id,
                context_token,
                from_user_id: String::new(),
                to_user_id,
                message_type: MessageType::Bot,
                message_state: MESSAGE_STATE_FINISH,
                item_list: items,
            },
        }
    }
}

impl SendMessageRequest {
    /// The request that sends `items` to `to_user_id`, under a fresh random client
    /// id, in the conversation of the given context token or, when none is given,
    /// of the one stored in the session; fails when neither exists.
    pub fn compose(
        to_user_id: ToUserId,
        items: MessageItems,
        context_token: Option<ContextToken>,
        session: &SessionContext,
    ) -> (res: Result<SendMessageRequest, WechatError>)
        ensures
            match chosen_context_token(context_token, session.context_token) {
                Some(t) => {
                    &&& res is Ok
                    &&& is_uuid_v4_text(res->Ok_0.msg.client_id@)
                    &&& res->Ok_0.msg.context_token == t
                    &&& res->Ok_0.msg.from_user_id@ == Seq::<char>::empty()
                    &&& res->Ok_0.msg.to_user_id == to_user_id
                    &&& res->Ok_0.msg.message_type == MessageType::Bot
                    &&& res->Ok_0.msg.message_state == MESSAGE_STATE_FINISH
                    &&& res->Ok_0.msg.item_list == items
                },
                None => res == Err::<SendMessageRequest, WechatError>(
                    WechatError::SessionNotInitialized,
                ),
            },
    {
        match context_token_for(context_token, session) {
            Ok(t) => Ok(SendMessageRequest::new(new_client_id(), to_user_id, t, items)),
            Err(e) => Err(e),
        }
    }
}

/// A sent message is marked finished with state 2, and a client id is a
/// hyphenated 36-character UUID.
pub proof fn sent_message_constants(s: Seq<char>)
    ensures
        MESSAGE_STATE_FINISH == 2,
        is_uuid_v4_text(s) ==> s.len() == 36 && s[8] == '-' && s[13] == '-' && s[18] == '-'
            && s[23] == '-' && s[14] == '4',
{
}

} // verus!
