//! The bot API: its messages, the requests that carry them and the decisions
//! taken on their answers.
use crate::account::WechatAccount;
use crate::client::require_account;
use crate::error::WechatError;
use crate::text::{str_concat, decimal_ascii, decimal_ascii_spec};
use crate::client::apis::cdn::base64_standard_decode;
use crate::WECHAT_SDK_VERSION;
use vstd::utf8::encode_utf8;
use base64::Engine;
use vstd::prelude::*;

pub mod cdn;
pub mod get_config;
pub mod get_updates;
pub mod message;
pub mod send_message;
pub mod send_typing;

verus! {

/// The `base_info` object that every API request body carries.
#[derive(Debug)]
pub struct PostReqBodyBaseInfo {
    pub channel_version: String,
}

impl PostReqBodyBaseInfo {
    /// Base info naming this SDK's version as the channel version.
    pub fn current() -> (res: PostReqBodyBaseInfo)
        ensures
            res.channel_version@ == WECHAT_SDK_VERSION@,
    {
        PostReqBodyBaseInfo { channel_version: WECHAT_SDK_VERSION.to_owned() }
    }
}

/// Where and as whom an API request is posted: the URL, the `X-WECHAT-UIN`
/// header value and the bearer token.
#[derive(Debug)]
pub struct PostTarget {
    pub url: String,
    pub wechat_uin: String,
    pub bot_token: String,
}

/// Standard base64 encoding (with padding) of `bytes`, as the `base64` crate computes it.
pub uninterp spec fn base64_standard_encode(bytes: Seq<u8>) -> Seq<char>;

/// Calls `base64::engine::general_purpose::STANDARD.encode`; the result is
/// believed to be the standard encoding of the bytes, named
/// [`base64_standard_encode`], which the same engine's `decode` turns back
/// into the bytes.
#[verifier::external_body]
fn base64_encode(bytes: &[u8]) -> (res: String)
    ensures
        res@ == base64_standard_encode(bytes@),
        base64_standard_decode(encode_utf8(res@)) == Some(bytes@),
{
    base64::engine::general_purpose::STANDARD.encode(bytes)
}

/// Modulus by which the clock reading is reduced: `u32::MAX`.
pub open spec fn uin_modulus() -> nat {
    4294967295
}

/// The `X-WECHAT-UIN` value for a clock reading of `now_nanos` nanoseconds since
/// the Unix epoch: the reading modulo `u32::MAX`, written in decimal, in base64.
pub open spec fn wechat_uin_spec(now_nanos: u128) -> Seq<char> {
    base64_standard_encode(decimal_ascii_spec(now_nanos as nat % uin_modulus()))
}

/// Computes the `X-WECHAT-UIN` header value from the current time in
/// nanoseconds since the Unix epoch.
pub fn random_wechat_uin(now_nanos: u128) -> (res: String)
    ensures
        res@ == wechat_uin_spec(now_nanos),
        base64_standard_decode(encode_utf8(res@)) == Some(
            decimal_ascii_spec(now_nanos as nat % uin_modulus()),
        ),
{
    let reduced: u32 = (now_nanos % 4294967295u128) as u32;
    let digits = decimal_ascii(reduced as u128);
    base64_encode(digits.as_slice())
}

/// The target of a post of `endpoint` by the logged-in account at clock reading
/// `now_nanos`: the account's base URL followed by the endpoint, the
/// `X-WECHAT-UIN` value and the account's bot token. Fails before login.
pub fn post_target(account: &Option<WechatAccount>, endpoint: &str, now_nanos: u128) -> (res: Result<
    PostTarget,
    WechatError,
>)
    ensures
        match *account {
            None => res == Err::<PostTarget, WechatError>(WechatError::NotLoggedIn),
            Some(a) => {
                &&& res is Ok
                &&& res->Ok_0.url@ == a.base_url@ + endpoint@
                &&& res->Ok_0.wechat_uin@ == wechat_uin_spec(now_nanos)
                &&& res->Ok_0.bot_token == a.bot_token
            },
        },
{
    let a = match require_account(account) {
        Ok(a) => a,
        Err(e) => {
            return Err(e);
        },
    };
    Ok(
        PostTarget {
            url: str_concat(a.base_url.as_str(), endpoint),
            wechat_uin: random_wechat_uin(now_nanos),
            bot_token: a.bot_token.clone(),
        },
    )
}

/// The clock reading is reduced modulo `u32::MAX` before it is written.
pub proof fn uin_modulus_is_u32_max()
    ensures
        uin_modulus() == u32::MAX,
{
}

} // verus!
