//! Errors that the library's decisions can produce.
use vstd::prelude::*;

verus! {

/// Why an operation of the SDK failed.
#[allow(inconsistent_fields)]
#[derive(Debug, Clone, PartialEq, Eq)]
pub enum WechatError {
    /// Neither the state-path variable nor a home or template directory is available.
    NoStatePath,
    /// The account-id variable is not set.
    AccountIdEnvNotFound,
    /// The account's state path exists but is not a directory.
    StatePathNotDir(String),
    /// The QR code was not confirmed within the login timeout.
    QrCodeTimeout,
    /// The server reported the QR code as expired.
    QrCodeExpired,
    /// A confirmed QR status carried no bot credentials.
    ILinkBotNotFound,
    /// An API call was made before a successful login.
    NotLoggedIn,
    /// No context token was given and none is stored in the session yet.
    SessionNotInitialized,
    /// `getconfig` answered with an error code.
    GetConfigFailed { ret: i32, errmsg: Option<String> },
    /// `getupdates` answered with an error code.
    GetUpdatesFailed { errcode: i32, errmsg: String },
    /// `sendtyping` answered with an error code.
    SendTypingFailed { ret: i32, errmsg: String },
    /// A hexadecimal key could not be decoded.
    InvalidHex,
    /// A base64 key could not be decoded.
    InvalidBase64,
    /// A decoded key of 32 bytes is not UTF-8 text.
    InvalidUtf8,
    /// A decoded base64 key has neither 16 nor 32 bytes.
    UnexpectedAesKeyLen(usize),
    /// The AES key does not have 16 bytes.
    InvalidAesKey,
    /// The ciphertext is not a whole number of blocks or its padding is malformed.
    AesDecryptFailed,
}

} // verus!
