//! The QR-code login API's data: issued codes, polled statuses and bot credentials.
use crate::text::{str_concat, str_eq};
use crate::WECHAT_BASE_URL;
use vstd::prelude::*;

verus! {

/// Token that identifies an issued QR code when its status is polled.
#[derive(Debug)]
pub struct QrCode(pub String);

/// Link to the QR-code image that the user scans.
#[derive(Debug)]
pub struct QrCodeUrl(pub String);

/// Answer to a request for a new login QR code.
#[derive(Debug)]
pub struct QrCodeResponse {
    pub qrcode: QrCode,
    pub qrcode_url: QrCodeUrl,
}

/// Credentials of the bot, present once a login is confirmed.
#[derive(Debug)]
pub struct ILinkBot {
    pub bot_id: String,
    pub bot_token: String,
}

/// Answer to a poll of a QR code's status.
#[derive(Debug)]
pub struct QrCodeStatusResponse {
    pub status: QrStatus,
    pub ilink_bot: Option<ILinkBot>,
    pub base_url: Option<String>,
    pub redirect_host: Option<String>,
}

/// State of a QR-code login as the server reports it.
#[derive(Debug, Clone, Copy, PartialEq, Eq)]
pub enum QrStatus {
    Wait,
    Scaned,
    ScannedButRedirect,
    Expired,
    Confirmed,
    Unknown,
}

impl View for QrCode {
    type V = Seq<char>;

    open spec fn view(&self) -> Seq<char> {
        self.0@
    }
}

impl View for QrCodeUrl {
    type V = Seq<char>;

    open spec fn view(&self) -> Seq<char> {
        self.0@
    }
}

impl Clone for QrCode {
    fn clone(&self) -> (res: Self)
        ensures
            res == *self,
    {
        QrCode(self.0.clone())
    }
}

impl Clone for QrCodeUrl {
    fn clone(&self) -> (res: Self)
        ensures
            res == *self,
    {
        QrCodeUrl(self.0.clone())
    }
}

impl QrCode {
    /// The code as text.
    pub fn as_str(&self) -> (res: &str)
        ensures
            res@ == self@,
    {
        self.0.as_str()
    }
}

impl QrCodeUrl {
    /// The link as text.
    pub fn as_str(&self) -> (res: &str)
        ensures
            res@ == self@,
    {
        self.0.as_str()
    }
}

/// The snake-case name of each status, as it is written and read on the wire.
pub open spec fn qr_status_name(status: QrStatus) -> Seq<char> {
    match status {
        QrStatus::Wait => seq!['w', 'a', 'i', 't'],
        QrStatus::Scaned => seq!['s', 'c', 'a', 'n', 'e', 'd'],
        QrStatus::ScannedButRedirect => seq![
            's', 'c', 'a', 'n', 'n', 'e', 'd', '_', 'b', 'u', 't', '_', 'r', 'e', 'd', 'i', 'r', 'e', 'c', 't'
        ],
        QrStatus::Expired => seq!['e', 'x', 'p', 'i', 'r', 'e', 'd'],
        QrStatus::Confirmed => seq!['c', 'o', 'n', 'f', 'i', 'r', 'm', 'e', 'd'],
        QrStatus::Unknown => seq!['u', 'n', 'k', 'n', 'o', 'w', 'n'],
    }
}

/// The status whose name is `s`, if any.
pub open spec fn qr_status_parse_spec(s: Seq<char>) -> Option<QrStatus> {
    if s == qr_status_name(QrStatus::Wait) {
        Some(QrStatus::Wait)
    } else if s == qr_status_name(QrStatus::Scaned) {
        Some(QrStatus::Scaned)
    } else if s == qr_status_name(QrStatus::ScannedButRedirect) {
        Some(QrStatus::ScannedButRedirect)
    } else if s == qr_status_name(QrStatus::Expired) {
        Some(QrStatus::Expired)
    } else if s == qr_status_name(QrStatus::Confirmed) {
        Some(QrStatus::Confirmed)
    } else if s == qr_status_name(QrStatus::Unknown) {
        Some(QrStatus::Unknown)
    } else {
        None
    }
}

/// The status read from the `status` field of a poll answer: a missing or
/// unrecognised value reads as `Unknown`.
pub open spec fn qr_status_from_field_spec(field: Option<Seq<char>>) -> QrStatus {
    match field {
        Some(s) => match qr_status_parse_spec(s) {
            Some(status) => status,
            None => QrStatus::Unknown,
        },
        None => QrStatus::Unknown,
    }
}

impl QrStatus {
    /// The status's wire name.
    pub fn as_str(&self) -> (res: &'static str)
        ensures
            res@ == qr_status_name(*self),
    {
        match self {
            QrStatus::Wait => {
                proof {
                    reveal_strlit("wait");
                }
                "wait"
            },
            QrStatus::Scaned => {
                proof {
                    reveal_strlit("scaned");
                }
                "scaned"
            },
            QrStatus::ScannedButRedirect => {
                proof {
                    reveal_strlit("scanned_but_redirect");
                }
                "scanned_but_redirect"
            },
            QrStatus::Expired => {
                proof {
                    reveal_strlit("expired");
                }
                "expired"
            },
            QrStatus::Confirmed => {
                proof {
                    reveal_strlit("confirmed");
                }
                "confirmed"
            },
            QrStatus::Unknown => {
                proof {
                    reveal_strlit("unknown");
                }
                "unknown"
            },
        }
    }

    /// Reads a status from its wire name; any other text is refused.
    pub fn parse(s: &str) -> (res: Option<QrStatus>)
        ensures
            res == qr_status_parse_spec(s@),
    {
        if str_eq(s, QrStatus::Wait.as_str()) {
            Some(QrStatus::Wait)
        } else if str_eq(s, QrStatus::Scaned.as_str()) {
            Some(QrStatus::Scaned)
        } else if str_eq(s, QrStatus::ScannedButRedirect.as_str()) {
            Some(QrStatus::ScannedButRedirect)
        } else if str_eq(s, QrStatus::Expired.as_str()) {
            Some(QrStatus::Expired)
        } else if str_eq(s, QrStatus::Confirmed.as_str()) {
            Some(QrStatus::Confirmed)
        } else if str_eq(s, QrStatus::Unknown.as_str()) {
            Some(QrStatus::Unknown)
        } else {
            None
        }
    }

    /// Reads the `status` field of a poll answer; `None` stands for a field that
    /// is missing, null or not a string.
    pub fn from_field(field: Option<&str>) -> (res: QrStatus)
        ensures
            res == qr_status_from_field_spec(
                match field {
                    Some(s) => Some(s@),
                    None => None,
                },
            ),
    {
        match field {
            Some(s) => match QrStatus::parse(s) {
                Some(status) => status,
                None => QrStatus::Unknown,
            },
            None => QrStatus::Unknown,
        }
    }
}

/// Every status reads back from its own wire name, so a status that is written
/// and read again is unchanged.
pub proof fn qr_status_name_roundtrip(status: QrStatus)
    ensures
        qr_status_parse_spec(qr_status_name(status)) == Some(status),
{
    let w = qr_status_name(QrStatus::Wait);
    let s = qr_status_name(QrStatus::Scaned);
    let r = qr_status_name(QrStatus::ScannedButRedirect);
    let e = qr_status_name(QrStatus::Expired);
    let c = qr_status_name(QrStatus::Confirmed);
    let u = qr_status_name(QrStatus::Unknown);
    assert(w.len() == 4 && s.len() == 6 && r.len() == 20 && e.len() == 7 && c.len() == 9 && u.len() == 7);
    assert(e[0] != u[0]);
}

/// Path of the endpoint that issues a login QR code.
pub open spec fn qr_code_fetch_path() -> Seq<char> {
    "/ilink/bot/get_bot_qrcode"@
}

/// Path of the endpoint that reports a QR code's status.
pub open spec fn qr_code_status_path() -> Seq<char> {
    "/ilink/bot/get_qrcode_status"@
}

/// URL that issues a new login QR code (queried with `bot_type=3`).
pub fn qr_code_fetch_url() -> (res: String)
    ensures
        res@ == WECHAT_BASE_URL@ + qr_code_fetch_path(),
{
    str_concat(WECHAT_BASE_URL, "/ilink/bot/get_bot_qrcode")
}

/// URL, under `base_url`, that reports a QR code's status.
pub fn qr_code_status_url(base_url: &str) -> (res: String)
    ensures
        res@ == base_url@ + qr_code_status_path(),
{
    str_concat(base_url, "/ilink/bot/get_qrcode_status")
}

/// Each status is written and read under its snake-case variant name, so a poll
/// answer's `status` text maps to the status of that name, and any other text
/// (such as a differently cased name) reads as `Unknown`.
pub proof fn qr_status_wire_names()
    ensures
        qr_status_name(QrStatus::Wait) == "wait"@,
        qr_status_name(QrStatus::Scaned) == "scaned"@,
        qr_status_name(QrStatus::ScannedButRedirect) == "scanned_but_redirect"@,
        qr_status_name(QrStatus::Expired) == "expired"@,
        qr_status_name(QrStatus::Confirmed) == "confirmed"@,
        qr_status_name(QrStatus::Unknown) == "unknown"@,
        qr_status_from_field_spec(Some("wait"@)) == QrStatus::Wait,
        qr_status_from_field_spec(Some("scaned"@)) == QrStatus::Scaned,
        qr_status_from_field_spec(Some("scanned_but_redirect"@)) == QrStatus::ScannedButRedirect,
        qr_status_from_field_spec(Some("expired"@)) == QrStatus::Expired,
        qr_status_from_field_spec(Some("confirmed"@)) == QrStatus::Confirmed,
        qr_status_from_field_spec(Some("unknown"@)) == QrStatus::Unknown,
        qr_status_from_field_spec(Some("EXPIRED"@)) == QrStatus::Unknown,
        qr_status_from_field_spec(None) == QrStatus::Unknown,
{
    reveal_strlit("wait");
    reveal_strlit("scaned");
    reveal_strlit("scanned_but_redirect");
    reveal_strlit("expired");
    reveal_strlit("confirmed");
    reveal_strlit("unknown");
    reveal_strlit("EXPIRED");
    assert(qr_status_name(QrStatus::Wait) =~= "wait"@);
    assert(qr_status_name(QrStatus::Scaned) =~= "scaned"@);
    assert(qr_status_name(QrStatus::ScannedButRedirect) =~= "scanned_but_redirect"@);
    assert(qr_status_name(QrStatus::Expired) =~= "expired"@);
    assert(qr_status_name(QrStatus::Confirmed) =~= "confirmed"@);
    assert(qr_status_name(QrStatus::Unknown) =~= "unknown"@);
    qr_status_name_roundtrip(QrStatus::Wait);
    qr_status_name_roundtrip(QrStatus::Scaned);
    qr_status_name_roundtrip(QrStatus::ScannedButRedirect);
    qr_status_name_roundtrip(QrStatus::Expired);
    qr_status_name_roundtrip(QrStatus::Confirmed);
    qr_status_name_roundtrip(QrStatus::Unknown);
    let e = "EXPIRED"@;
    assert(e[0] != qr_status_name(QrStatus::Expired)[0]);
    assert(e.len() != 4 && e.len() != 6 && e.len() != 20 && e.len() != 9);
    assert(e[0] != qr_status_name(QrStatus::Unknown)[0]);
}

/// The QR endpoints: a code is issued at `/ilink/bot/get_bot_qrcode` under the
/// service's base URL, and its status is polled at `/ilink/bot/get_qrcode_status`.
pub proof fn qr_endpoint_paths()
    ensures
        qr_code_fetch_path() == "/ilink/bot/get_bot_qrcode"@,
        qr_code_status_path() == "/ilink/bot/get_qrcode_status"@,
{
}

} // verus!
