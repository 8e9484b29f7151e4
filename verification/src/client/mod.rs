//! Client-side configuration, session bookkeeping and the bot API's messages.
use crate::account::{WechatAccount, WechatAccountId};
use crate::client::config::DEFAULT_HTTP_TIMEOUT_MS;
use crate::error::WechatError;
use vstd::prelude::*;

pub mod apis;
pub mod config;

pub use apis::message;

verus! {

/// Where an SDK instance keeps its state and how long it waits.
/// Durations are in milliseconds.
#[derive(Debug)]
pub struct WechatConfig {
    pub state_path: String,
    pub account_id: WechatAccountId,
    pub http_timeout: Option<u64>,
    pub qr_login_timeout: Option<u64>,
    pub http_api_get_updates_timeout: Option<u64>,
}

impl Clone for WechatConfig {
    fn clone(&self) -> (res: Self)
        ensures
            res == *self,
    {
        WechatConfig {
            state_path: self.state_path.clone(),
            account_id: self.account_id.clone(),
            http_timeout: self.http_timeout,
            qr_login_timeout: self.qr_login_timeout,
            http_api_get_updates_timeout: self.http_api_get_updates_timeout,
        }
    }
}

impl WechatConfig {
    /// Timeout of the HTTP client, in milliseconds: the configured one, else the default.
    pub fn http_client_timeout_ms(&self) -> (res: u64)
        ensures
            res == match self.http_timeout {
                Some(t) => t,
                None => DEFAULT_HTTP_TIMEOUT_MS,
            },
    {
        match self.http_timeout {
            Some(t) => t,
            None => DEFAULT_HTTP_TIMEOUT_MS,
        }
    }

    /// Timeout of each bot API request, in milliseconds: the configured HTTP
    /// timeout, else its default.
    pub fn api_request_timeout_ms(&self) -> (res: u64)
        ensures
            res == match self.http_timeout {
                Some(t) => t,
                None => DEFAULT_HTTP_TIMEOUT_MS,
            },
    {
        self.http_client_timeout_ms()
    }

    /// Timeout of a `getupdates` poll, in milliseconds: its own configured
    /// timeout when one is set, else the timeout of every API request.
    pub fn get_updates_timeout_ms(&self) -> (res: u64)
        ensures
            res == match self.http_api_get_updates_timeout {
                Some(t) => t,
                None => match self.http_timeout {
                    Some(t) => t,
                    None => DEFAULT_HTTP_TIMEOUT_MS,
                },
            },
    {
        match self.http_api_get_updates_timeout {
            Some(t) => t,
            None => self.api_request_timeout_ms(),
        }
    }
}

/// The logged-in account; API calls need one.
pub fn require_account(account: &Option<WechatAccount>) -> (res: Result<&WechatAccount, WechatError>)
    ensures
        match *account {
            Some(a) => res == Ok::<&WechatAccount, WechatError>(&a),
            None => res == Err::<&WechatAccount, WechatError>(WechatError::NotLoggedIn),
        },
{
    match account {
        Some(a) => Ok(a),
        None => Err(WechatError::NotLoggedIn),
    }
}

} // verus!
