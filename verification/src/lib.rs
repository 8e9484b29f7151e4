//! Verified core of a WeChat bot SDK: account and login decisions,
//! configuration, message model, request construction and media-key handling.
//! Network, file and serialisation work lives outside this crate.
use vstd::prelude::*;

pub mod account;
pub mod client;
pub mod error;
pub mod text;

verus! {

/// Name of this SDK.
pub const WECHAT_SDK_NAME: &'static str = "wechat-sdk-rs";

/// Version of this SDK; sent as the channel version of every API request.
pub const WECHAT_SDK_VERSION: &'static str = "0.1.2";

/// Base URL of the WeChat iLink bot service.
pub const WECHAT_BASE_URL: &'static str = "https://ilinkai.weixin.qq.com";

} // verus!
