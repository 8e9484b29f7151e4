//! The decisions of a QR-code login. The caller fetches the code, shows it,
//! waits, polls and stores; after each step it hands the outcome to [`QrLogin`],
//! which says what comes next.
use crate::account::qr_code_api::{ILinkBot, QrCode, QrCodeStatusResponse, QrStatus};
use crate::account::{WechatAccount, WechatAccountId};
use crate::client::config::DEFAULT_QR_LOGIN_TIMEOUT_MS;
use crate::client::WechatConfig;
use crate::error::WechatError;
use crate::text::str_concat;
use crate::WECHAT_BASE_URL;
use vstd::prelude::*;

verus! {

/// Time to wait between two polls of the QR code's status, in milliseconds.
pub const QR_POLL_INTERVAL_MS: u64 = 1000;

/// Scheme put in front of a redirect host.
pub open spec fn https_prefix() -> Seq<char> {
    "https://"@
}

/// A login in progress: the account it is for, how long it may take, the code
/// being polled and the base URL the status is polled from.
#[derive(Debug)]
pub struct QrLogin {
    pub account_id: WechatAccountId,
    pub timeout_ms: u64,
    pub qrcode: QrCode,
    pub poll_base_url: String,
}

/// What to do at the top of each round of the polling loop.
#[derive(Debug)]
pub enum TickDecision {
    /// Credentials are already stored: the login is over.
    Done(WechatAccount),
    /// The login took longer than its timeout.
    Failed(WechatError),
    /// Wait [`QR_POLL_INTERVAL_MS`], then poll the status.
    Poll,
}

/// What a polled status means for the login.
#[derive(Debug)]
pub enum PollOutcome {
    /// Keep polling.
    Continue,
    /// The login has failed.
    Failed(WechatError),
    /// The login is confirmed: store these credentials and finish.
    Confirmed(WechatAccount),
}

/// The timeout a login uses: the configured one, else the default.
pub open spec fn login_timeout_spec(config: WechatConfig) -> u64 {
    match config.qr_login_timeout {
        Some(t) => t,
        None => DEFAULT_QR_LOGIN_TIMEOUT_MS,
    }
}

impl QrLogin {
    /// The base URL polled is the service's own or an HTTPS redirect host.
    pub open spec fn wf(&self) -> bool {
        ||| self.poll_base_url@ == WECHAT_BASE_URL@
        ||| exists|host: Seq<char>| self.poll_base_url@ == https_prefix() + host
    }

    /// Starts the login for `config`'s account once `qrcode` has been issued and shown.
    pub fn new(config: &WechatConfig, qrcode: QrCode) -> (res: QrLogin)
        ensures
            res.account_id == config.account_id,
            res.timeout_ms == login_timeout_spec(*config),
            res.qrcode == qrcode,
            res.poll_base_url@ == WECHAT_BASE_URL@,
            res.wf(),
    {
        let timeout_ms = match config.qr_login_timeout {
            Some(t) => t,
            None => DEFAULT_QR_LOGIN_TIMEOUT_MS,
        };
        QrLogin {
            account_id: config.account_id.clone(),
            timeout_ms,
            qrcode,
            poll_base_url: WECHAT_BASE_URL.to_owned(),
        }
    }

    /// The top of a polling round: credentials found in the state directory end
    /// the login; otherwise it fails once more than the timeout has elapsed since
    /// the code was shown (`elapsed_nanos`, in nanoseconds), and polls again
    /// before that.
    pub fn on_tick(&self, stored: Option<WechatAccount>, elapsed_nanos: u128) -> (res: TickDecision)
        ensures
            match stored {
                Some(a) => res == TickDecision::Done(a),
                None => if elapsed_nanos > self.timeout_ms as int * 1_000_000 {
                    res == TickDecision::Failed(WechatError::QrCodeTimeout)
                } else {
                    res == TickDecision::Poll
                },
            },
    {
        match stored {
            Some(a) => TickDecision::Done(a),
            None => {
                let timeout_nanos: u128 = self.timeout_ms as u128 * 1_000_000u128;
                if elapsed_nanos > timeout_nanos {
                    TickDecision::Failed(WechatError::QrCodeTimeout)
                } else {
                    TickDecision::Poll
                }
            },
        }
    }

    /// Takes in the result of a poll (`None` when the poll itself failed).
    ///
    /// Waiting, scanned and unknown statuses, and failed polls, keep polling; a
    /// redirect keeps polling from `https://` and the redirect host, when one is
    /// given; an expired code fails the login; a confirmed code gives the
    /// account's credentials, with the service's own base URL when the answer
    /// names none, or fails when it carries no credentials.
    pub fn on_poll(&mut self, result: Option<QrCodeStatusResponse>) -> (res: PollOutcome)
        ensures
            old(self).wf() ==> final(self).wf(),
            final(self).account_id == old(self).account_id,
            final(self).timeout_ms == old(self).timeout_ms,
            final(self).qrcode == old(self).qrcode,
            match result {
                None => res == PollOutcome::Continue && final(self).poll_base_url == old(
                    self,
                ).poll_base_url,
                Some(r) => match r.status {
                    QrStatus::ScannedButRedirect => {
                        &&& res == PollOutcome::Continue
                        &&& match r.redirect_host {
                            Some(host) => final(self).poll_base_url@ == https_prefix() + host@,
                            None => final(self).poll_base_url == old(self).poll_base_url,
                        }
                    },
                    QrStatus::Expired => res == PollOutcome::Failed(WechatError::QrCodeExpired)
                        && final(self).poll_base_url == old(self).poll_base_url,
                    QrStatus::Confirmed => final(self).poll_base_url == old(self).poll_base_url
                        && match r.ilink_bot {
                        None => res == PollOutcome::Failed(WechatError::ILinkBotNotFound),
                        Some(bot) => {
                            &&& res is Confirmed
                            &&& res->Confirmed_0.account_id == old(self).account_id
                            &&& res->Confirmed_0.bot_id == bot.bot_id
                            &&& res->Confirmed_0.bot_token == bot.bot_token
                            &&& match r.base_url {
                                Some(u) => res->Confirmed_0.base_url == u,
                                None => res->Confirmed_0.base_url@ == WECHAT_BASE_URL@,
                            }
                        },
                    },
                    _ => res == PollOutcome::Continue && final(self).poll_base_url == old(
                        self,
                    ).poll_base_url,
                },
            },
    {
        let r = match result {
            Some(r) => r,
            None => {
                return PollOutcome::Continue;
            },
        };
        match r.status {
            QrStatus::ScannedButRedirect => {
                if let Some(host) = &r.redirect_host {
                    self.poll_base_url = str_concat("https://", host.as_str());
                    assert(self.poll_base_url@ == https_prefix() + host@);
                }
                PollOutcome::Continue
            },
            QrStatus::Expired => PollOutcome::Failed(WechatError::QrCodeExpired),
            QrStatus::Confirmed => {
                let QrCodeStatusResponse { ilink_bot, base_url, .. } = r;
                match ilink_bot {
                    None => PollOutcome::Failed(WechatError::ILinkBotNotFound),
                    Some(ILinkBot { bot_id, bot_token }) => {
                        let base_url = match base_url {
                            Some(u) => u,
                            None => WECHAT_BASE_URL.to_owned(),
                        };
                        PollOutcome::Confirmed(
                            WechatAccount {
                                account_id: self.account_id.clone(),
                                bot_id,
                                bot_token,
                                base_url,
                            },
                        )
                    },
                }
            },
            _ => PollOutcome::Continue,
        }
    }
}

/// A login waits for exactly the configured QR-login timeout (whatever its
/// size), and two minutes when none is configured; it polls once a second, and
/// a redirect is followed over HTTPS.
pub proof fn login_timeout_is_configured_timeout(config: WechatConfig)
    ensures
        config.qr_login_timeout matches Some(t) ==> login_timeout_spec(config) == t,
        config.qr_login_timeout is None ==> login_timeout_spec(config) == 120000,
        QR_POLL_INTERVAL_MS == 1000,
        https_prefix() == "https://"@,
{
}

} // verus!
