//! Polling for new messages and what an answer does to the session.
use crate::client::message::{chosen_context_token, ContextToken, SessionContext, WechatMessage};
use crate::error::WechatError;
use vstd::prelude::*;

verus! {

/// Endpoint that returns the messages received since the cursor.
pub const GET_UPDATES_ENDPOINT: &'static str = "/ilink/bot/getupdates";

/// A batch of received messages.
#[derive(Debug)]
pub struct WechatMessages(pub Vec<WechatMessage>);

/// Body of a `getupdates` request: the cursor from the previous answer.
#[derive(Debug)]
pub struct GetUpdatesRequest {
    pub get_updates_buf: String,
}

/// Answer to a `getupdates` request.
#[derive(Debug)]
pub enum GetUpdatesResponse {
    Success { msgs: WechatMessages, get_updates_buf: Option<String> },
    Failure { errcode: i32, errmsg: String },
}

impl WechatMessages {
    /// Number of messages.
    pub fn len(&self) -> (res: usize)
        ensures
            res == self.0@.len(),
    {
        self.0.len()
    }

    /// Whether there are no messages.
    pub fn is_empty(&self) -> (res: bool)
        ensures
            res == (self.0@.len() == 0),
    {
        self.0.len() == 0
    }
}

/// The context token after receiving `msgs`: that of the last message, or the
/// previous one when nothing arrived.
pub open spec fn latest_context_token(msgs: Seq<WechatMessage>, previous: Option<ContextToken>) -> Option<
    ContextToken,
> {
    if msgs.len() > 0 {
        Some(msgs.last().context_token)
    } else {
        previous
    }
}

impl SessionContext {
    /// The request for the messages after the stored cursor (empty when there is none).
    pub fn updates_request(&self) -> (res: GetUpdatesRequest)
        ensures
            res.get_updates_buf@ == match self.get_updates_buf {
                Some(b) => b@,
                None => Seq::<char>::empty(),
            },
    {
        let get_updates_buf = match &self.get_updates_buf {
            Some(b) => b.clone(),
            None => String::new(),
        };
        GetUpdatesRequest { get_updates_buf }
    }
}

impl GetUpdatesResponse {
    /// Takes in an answer given the session before the request. A success gives
    /// the messages and the session to store: the latest context token and the
    /// answer's cursor; an error code fails.
    pub fn resolve(self, previous: SessionContext) -> (res: Result<(WechatMessages, SessionContext), WechatError>)
        ensures
            match self {
                GetUpdatesResponse::Success { msgs, get_updates_buf } => {
                    &&& res is Ok
                    &&& res->Ok_0.0 == msgs
                    &&& res->Ok_0.1.context_token == latest_context_token(
                        msgs.0@,
                        previous.context_token,
                    )
                    &&& res->Ok_0.1.get_updates_buf == get_updates_buf
                },
                GetUpdatesResponse::Failure { errcode, errmsg } => res == Err::<
                    (WechatMessages, SessionContext),
                    WechatError,
                >(WechatError::GetUpdatesFailed { errcode, errmsg }),
            },
    {
        match self {
            GetUpdatesResponse::Success { msgs, get_updates_buf } => {
                let n = msgs.0.len();
                let context_token = if n > 0 {
                    Some(msgs.0[n - 1].context_token.clone())
                } else {
                    previous.context_token
                };
                Ok((msgs, SessionContext { context_token, get_updates_buf }))
            },
            GetUpdatesResponse::Failure { errcode, errmsg } => Err(
                WechatError::GetUpdatesFailed { errcode, errmsg },
            ),
        }
    }
}

/// What a poll stores decides what later requests go with: after messages
/// arrive, a request without an explicit context token uses the token of the
/// last message received; a poll that receives nothing keeps the stored token;
/// an explicit token is always used as given.
pub proof fn reply_token_follows_last_received(
    msgs: Seq<WechatMessage>,
    previous: Option<ContextToken>,
    given: Option<ContextToken>,
)
    ensures
        msgs.len() > 0 ==> chosen_context_token(None, latest_context_token(msgs, previous)) == Some(
            msgs.last().context_token,
        ),
        msgs.len() == 0 ==> latest_context_token(msgs, previous) == previous,
        given is Some ==> chosen_context_token(given, latest_context_token(msgs, previous)) == given,
{
}

} // verus!
