//! Bot accounts and the identifiers that name them.
use vstd::prelude::*;

pub mod login;
pub mod qr_code_api;

pub use qr_code_api::QrCodeUrl;

verus! {

/// Credentials of a logged-in bot, as kept in the account's `config.json`.
#[derive(Debug)]
pub struct WechatAccount {
    pub account_id: WechatAccountId,
    pub bot_id: String,
    pub bot_token: String,
    pub base_url: String,
}

/// Local name of an account; it names the account's state directory.
#[derive(Debug)]
pub struct WechatAccountId(pub String);

/// Identifier of a WeChat user.
#[derive(Debug, PartialEq, Eq, PartialOrd, Ord, Hash, Default)]
pub struct WechatUserId(pub String);

impl View for WechatAccountId {
    type V = Seq<char>;

    open spec fn view(&self) -> Seq<char> {
        self.0@
    }
}

impl View for WechatUserId {
    type V = Seq<char>;

    open spec fn view(&self) -> Seq<char> {
        self.0@
    }
}

impl Clone for WechatAccountId {
    fn clone(&self) -> (res: Self)
        ensures
            res == *self,
    {
        WechatAccountId(self.0.clone())
    }
}

impl Clone for WechatUserId {
    fn clone(&self) -> (res: Self)
        ensures
            res == *self,
    {
        WechatUserId(self.0.clone())
    }
}

impl Clone for WechatAccount {
    fn clone(&self) -> (res: Self)
        ensures
            res == *self,
    {
        WechatAccount {
            account_id: self.account_id.clone(),
            bot_id: self.bot_id.clone(),
            bot_token: self.bot_token.clone(),
            base_url: self.base_url.clone(),
        }
    }
}

impl WechatAccountId {
    /// The identifier as text.
    pub fn as_str(&self) -> (res: &str)
        ensures
            res@ == self@,
    {
        self.0.as_str()
    }
}

impl WechatUserId {
    /// The identifier as text.
    pub fn as_str(&self) -> (res: &str)
        ensures
            res@ == self@,
    {
        self.0.as_str()
    }
}

impl From<String> for WechatAccountId {
    fn from(value: String) -> (res: Self) {
        WechatAccountId(value)
    }
}

impl vstd::std_specs::convert::FromSpecImpl<String> for WechatAccountId {
    open spec fn obeys_from_spec() -> bool {
        true
    }

    open spec fn from_spec(v: String) -> Self {
        WechatAccountId(v)
    }
}

impl From<String> for WechatUserId {
    fn from(value: String) -> (res: Self) {
        WechatUserId(value)
    }
}

impl vstd::std_specs::convert::FromSpecImpl<String> for WechatUserId {
    open spec fn obeys_from_spec() -> bool {
        true
    }

    open spec fn from_spec(v: String) -> Self {
        WechatUserId(v)
    }
}

} // verus!
