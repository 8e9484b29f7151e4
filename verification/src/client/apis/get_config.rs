//! Fetching the ticket that authorises typing notifications.
use crate::client::message::{context_token_for, chosen_context_token, ContextToken, SessionContext, ToUserId, TypingTicket};
use crate::error::WechatError;
use vstd::prelude::*;

verus! {

/// Endpoint that returns the conversation's configuration.
pub const GET_CONFIG_ENDPOINT: &'static str = "/ilink/bot/getconfig";

/// Body of a `getconfig` request.
#[derive(Debug)]
pub struct GetConfigRequest {
    pub ilink_user_id: ToUserId,
    pub context_token: ContextToken,
}

/// Answer to a `getconfig` request.
#[derive(Debug)]
pub enum GetConfigResponse {
    Success { ret: i32, typing_ticket: TypingTicket },
    Failure { ret: i32, errmsg: Option<String> },
}

impl GetConfigRequest {
    /// The `getconfig` request for `to_user_id`, in the conversation of the
    /// given context token or, when none is given, of the one stored in the
    /// session; fails when neither exists.
    pub fn new(to_user_id: ToUserId, context_token: Option<ContextToken>, session: &SessionContext) -> (res:
        Result<GetConfigRequest, WechatError>)
        ensures
            match chosen_context_token(context_token, session.context_token) {
                Some(t) => res == Ok::<GetConfigRequest, WechatError>(
                    GetConfigRequest { ilink_user_id: to_user_id, context_token: t },
                ),
                None => res == Err::<GetConfigRequest, WechatError>(
                    WechatError::SessionNotInitialized,
                ),
            },
    {
        match context_token_for(context_token, session) {
            Ok(t) => Ok(GetConfigRequest { ilink_user_id: to_user_id, context_token: t }),
            Err(e) => Err(e),
        }
    }
}

impl GetConfigResponse {
    /// The typing ticket of a successful answer; an error answer fails with its
    /// code and message.
    pub fn into_result(self) -> (res: Result<TypingTicket, WechatError>)
        ensures
            match self {
                GetConfigResponse::Success { typing_ticket, .. } => res == Ok::<
                    TypingTicket,
                    WechatError,
                >(typing_ticket),
                GetConfigResponse::Failure { ret, errmsg } => res == Err::<TypingTicket, WechatError>(
                    WechatError::GetConfigFailed { ret, errmsg },
                ),
            },
    {
        match self {
            GetConfigResponse::Success { typing_ticket, .. } => Ok(typing_ticket),
            GetConfigResponse::Failure { ret, errmsg } => Err(
                WechatError::GetConfigFailed { ret, errmsg },
            ),
        }
    }
}

} // verus!
