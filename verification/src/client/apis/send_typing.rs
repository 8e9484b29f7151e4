//! Typing notifications.
use crate::client::message::{ToUserId, TypingTicket};
use crate::error::WechatError;
use vstd::prelude::*;

verus! {

/// Endpoint that starts or stops a typing notification.
pub const SEND_TYPING_ENDPOINT: &'static str = "/ilink/bot/sendtyping";

/// Whether the bot starts or stops "typing".
#[derive(Debug, Clone, Copy, PartialEq, Eq)]
pub enum SendTypingStatus {
    Typing,
    Cancel,
}

/// Body of a `sendtyping` request.
#[derive(Debug)]
pub struct SendTypingRequest {
    pub ilink_user_id: ToUserId,
    pub typing_ticket: TypingTicket,
    pub status: SendTypingStatus,
}

/// Answer to a `sendtyping` request.
#[derive(Debug)]
pub enum SendTypingResponse {
    Success { ret: i32 },
    Failure { ret: i32, errmsg: String },
}

/// Wire code of a typing status.
pub open spec fn typing_status_code_spec(s: SendTypingStatus) -> u8 {
    match s {
        SendTypingStatus::Typing => 1,
        SendTypingStatus::Cancel => 2,
    }
}

impl SendTypingStatus {
    /// The status's wire code.
    pub fn code(&self) -> (res: u8)
        ensures
            res == typing_status_code_spec(*self),
    {
        match self {
            SendTypingStatus::Typing => 1,
            SendTypingStatus::Cancel => 2,
        }
    }
}

impl SendTypingRequest {
    /// The request that sets `status` for `to_user_id` under `typing_ticket`.
    pub fn new(to_user_id: ToUserId, typing_ticket: &TypingTicket, status: SendTypingStatus) -> (res:
        SendTypingRequest)
        ensures
            res == (SendTypingRequest {
                ilink_user_id: to_user_id,
                typing_ticket: *typing_ticket,
                status,
            }),
    {
        SendTypingRequest { ilink_user_id: to_user_id, typing_ticket: typing_ticket.clone(), status }
    }

    /// The request that starts the typing notification.
    pub fn typing(to_user_id: ToUserId, typing_ticket: &TypingTicket) -> (res: SendTypingRequest)
        ensures
            res == (SendTypingRequest {
                ilink_user_id: to_user_id,
                typing_ticket: *typing_ticket,
                status: SendTypingStatus::Typing,
            }),
    {
        SendTypingRequest::new(to_user_id, typing_ticket, SendTypingStatus::Typing)
    }

    /// The request that stops the typing notification.
    pub fn cancel(to_user_id: ToUserId, typing_ticket: &TypingTicket) -> (res: SendTypingRequest)
        ensures
            res == (SendTypingRequest {
                ilink_user_id: to_user_id,
                typing_ticket: *typing_ticket,
                status: SendTypingStatus::Cancel,
            }),
    {
        SendTypingRequest::new(to_user_id, typing_ticket, SendTypingStatus::Cancel)
    }
}

impl SendTypingResponse {
    /// Success, or a failure with the answer's code and message.
    pub fn into_result(self) -> (res: Result<(), WechatError>)
        ensures
            match self {
                SendTypingResponse::Success { .. } => res == Ok::<(), WechatError>(()),
                SendTypingResponse::Failure { ret, errmsg } => res == Err::<(), WechatError>(
                    WechatError::SendTypingFailed { ret, errmsg },
                ),
            },
    {
        match self {
            SendTypingResponse::Success { .. } => Ok(()),
            SendTypingResponse::Failure { ret, errmsg } => Err(
                WechatError::SendTypingFailed { ret, errmsg },
            ),
        }
    }
}

/// Starting to type is sent as code 1 and stopping as code 2.
pub proof fn typing_status_codes()
    ensures
        typing_status_code_spec(SendTypingStatus::Typing) == 1,
        typing_status_code_spec(SendTypingStatus::Cancel) == 2,
{
}

} // verus!
