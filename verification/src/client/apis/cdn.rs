//! Encrypted media on the CDN: working out the AES key and decrypting a download.
use crate::error::WechatError;
use aes::cipher::block_padding::Pkcs7;
use aes::cipher::{BlockModeDecrypt, KeyInit};
use base64::Engine;
use vstd::prelude::*;
use vstd::utf8::{
    encode_utf8, encode_utf8_valid_utf8, is_ascii_chars, is_ascii_chars_encode_utf8, valid_utf8,
};

verus! {

/// Location of an encrypted media file and the key it was encrypted with.
#[derive(Debug)]
pub struct CdnMedia {
    pub aes_key: Base64AesKey,
    pub encrypt_query_param: String,
    pub full_url: String,
}

/// An AES key written in hexadecimal.
#[derive(Debug)]
pub struct HexAesKey(pub String);

/// An AES key written in base64 (of either the raw key or its hexadecimal text).
#[derive(Debug)]
pub struct Base64AesKey(pub String);

#[verifier::external_type_specification]
#[verifier::external_body]
pub struct ExFromHexError(hex::FromHexError);

#[verifier::external_type_specification]
#[verifier::external_body]
pub struct ExDecodeError(base64::DecodeError);

/// Value of a hexadecimal digit byte, either case.
pub open spec fn hex_digit_value(b: u8) -> Option<u8> {
    if 48 <= b <= 57 {
        Some((b - 48) as u8)
    } else if 65 <= b <= 70 {
        Some((b - 55) as u8)
    } else if 97 <= b <= 102 {
        Some((b - 87) as u8)
    } else {
        None
    }
}

/// Decoding of hexadecimal text: an even number of hexadecimal digits, two per
/// byte, high half first.
pub open spec fn hex_decode_spec(s: Seq<u8>) -> Option<Seq<u8>> {
    if s.len() % 2 == 0 && forall|i: int| 0 <= i < s.len() ==> (#[trigger] hex_digit_value(s[i])) is Some {
        Some(
            Seq::new(
                s.len() / 2,
                |i: int|
                    (hex_digit_value(s[2 * i])->Some_0 * 16 + hex_digit_value(
                        s[2 * i + 1],
                    )->Some_0) as u8,
            ),
        )
    } else {
        None
    }
}

/// Calls `hex::decode`; believed to succeed exactly on an even number of
/// hexadecimal digits (either case), giving the bytes they spell.
#[verifier::external_body]
fn hex_decode(bytes: &[u8]) -> (res: Result<Vec<u8>, hex::FromHexError>)
    ensures
        match hex_decode_spec(bytes@) {
            Some(v) => res is Ok && res->Ok_0@ == v,
            None => res is Err,
        },
{
    hex::decode(bytes)
}

/// Standard base64 decoding (with padding) of `s`, as the `base64` crate
/// computes it; `None` when the text is not valid standard base64.
pub uninterp spec fn base64_standard_decode(s: Seq<u8>) -> Option<Seq<u8>>;

/// Calls `base64::engine::general_purpose::STANDARD.decode`; believed to give
/// the decoding named [`base64_standard_decode`], and an error exactly when
/// that is `None`.
#[verifier::external_body]
fn base64_decode(bytes: &[u8]) -> (res: Result<Vec<u8>, base64::DecodeError>)
    ensures
        match base64_standard_decode(bytes@) {
            Some(v) => res is Ok && res->Ok_0@ == v,
            None => res is Err,
        },
{
    base64::engine::general_purpose::STANDARD.decode(bytes)
}

/// Calls `std::str::from_utf8` and reports whether it succeeds, which its
/// documentation promises exactly for valid UTF-8.
#[verifier::external_body]
fn is_utf8(bytes: &[u8]) -> (res: bool)
    ensures
        res == valid_utf8(bytes@),
{
    std::str::from_utf8(bytes).is_ok()
}

/// AES-128 decryption in ECB mode of `ciphertext` under `key`, with PKCS#7
/// padding removed, as the `aes` and `ecb` crates compute it; `None` when the
/// ciphertext is not a whole number of blocks or its padding is malformed.
pub uninterp spec fn aes128_ecb_pkcs7_decrypt(key: Seq<u8>, ciphertext: Seq<u8>) -> Option<Seq<u8>>;

/// Calls `ecb::Decryptor::<aes::Aes128>::new_from_slice` on the 16-byte key
/// (which succeeds on that length) and `decrypt_padded::<Pkcs7>` on a copy of
/// the ciphertext. Believed to give [`aes128_ecb_pkcs7_decrypt`]; the crates'
/// source shows that an empty ciphertext or one whose length is not a multiple
/// of 16 fails, and that success removes between 1 and 16 bytes.
#[verifier::external_body]
fn aes128_ecb_decrypt(key: &[u8], ciphertext: &[u8]) -> (res: Option<Vec<u8>>)
    requires
        key@.len() == 16,
    ensures
        match aes128_ecb_pkcs7_decrypt(key@, ciphertext@) {
            Some(p) => res is Some && res->Some_0@ == p,
            None => res is None,
        },
        (ciphertext@.len() == 0 || ciphertext@.len() % 16 != 0) ==> res is None,
        res is Some ==> ciphertext@.len() - 16 <= res->Some_0@.len() < ciphertext@.len(),
{
    let dec = ecb::Decryptor::<aes::Aes128>::new_from_slice(key).ok()?;
    let mut buf = ciphertext.to_vec();
    dec.decrypt_padded::<Pkcs7>(&mut buf).ok().map(|p| p.to_vec())
}

/// The key given by a decoded base64 key: 16 bytes are the key itself; 32 bytes
/// must be UTF-8 hexadecimal text of the key; any other length is refused.
pub open spec fn key_from_decoded_spec(buf: Seq<u8>) -> Result<Seq<u8>, WechatError> {
    if buf.len() == 16 {
        Ok(buf)
    } else if buf.len() == 32 {
        if !valid_utf8(buf) {
            Err(WechatError::InvalidUtf8)
        } else {
            match hex_decode_spec(buf) {
                Some(k) => Ok(k),
                None => Err(WechatError::InvalidHex),
            }
        }
    } else {
        Err(WechatError::UnexpectedAesKeyLen(buf.len() as usize))
    }
}

/// The media key: from the hexadecimal key when one is given, else from the
/// media's base64 key.
pub open spec fn media_key_spec(media_key: Seq<char>, hex_key: Option<Seq<char>>) -> Result<
    Seq<u8>,
    WechatError,
> {
    match hex_key {
        Some(h) => match hex_decode_spec(encode_utf8(h)) {
            Some(k) => Ok(k),
            None => Err(WechatError::InvalidHex),
        },
        None => match base64_standard_decode(encode_utf8(media_key)) {
            Some(buf) => key_from_decoded_spec(buf),
            None => Err(WechatError::InvalidBase64),
        },
    }
}

/// Whether an executable result equals a spec result.
pub open spec fn same_bytes_result(res: Result<Vec<u8>, WechatError>, spec: Result<Seq<u8>, WechatError>) -> bool {
    match spec {
        Ok(v) => res is Ok && res->Ok_0@ == v,
        Err(e) => res == Err::<Vec<u8>, WechatError>(e),
    }
}

/// Turns a decoded base64 key into the AES key (see [`key_from_decoded_spec`]).
pub fn aes_key_from_decoded(buf: Vec<u8>) -> (res: Result<Vec<u8>, WechatError>)
    ensures
        same_bytes_result(res, key_from_decoded_spec(buf@)),
{
    let n = buf.len();
    if n == 16 {
        Ok(buf)
    } else if n == 32 {
        if !is_utf8(buf.as_slice()) {
            return Err(WechatError::InvalidUtf8);
        }
        match hex_decode(buf.as_slice()) {
            Ok(k) => Ok(k),
            Err(_) => Err(WechatError::InvalidHex),
        }
    } else {
        Err(WechatError::UnexpectedAesKeyLen(n))
    }
}

impl CdnMedia {
    /// The AES key of the media (see [`media_key_spec`]).
    pub fn aes_key_bytes(&self, aes_key: Option<&HexAesKey>) -> (res: Result<Vec<u8>, WechatError>)
        ensures
            same_bytes_result(
                res,
                media_key_spec(
                    self.aes_key.0@,
                    match aes_key {
                        Some(h) => Some(h.0@),
                        None => None,
                    },
                ),
            ),
    {
        match aes_key {
            Some(h) => match hex_decode(h.0.as_str().as_bytes()) {
                Ok(k) => Ok(k),
                Err(_) => Err(WechatError::InvalidHex),
            },
            None => match base64_decode(self.aes_key.0.as_str().as_bytes()) {
                Ok(buf) => aes_key_from_decoded(buf),
                Err(_) => Err(WechatError::InvalidBase64),
            },
        }
    }
}

/// Decrypts downloaded media: the key must have 16 bytes; the result is the
/// AES-128-ECB decryption with PKCS#7 padding removed. An empty ciphertext, or
/// one that is not a whole number of 16-byte blocks, fails; a success is 1 to
/// 16 bytes shorter than the ciphertext.
pub fn decrypt_aes_ecb(aes_key: &[u8], ciphertext: &[u8]) -> (res: Result<Vec<u8>, WechatError>)
    ensures
        aes_key@.len() != 16 ==> res == Err::<Vec<u8>, WechatError>(WechatError::InvalidAesKey),
        aes_key@.len() == 16 && (ciphertext@.len() == 0 || ciphertext@.len() % 16 != 0) ==> res
            == Err::<Vec<u8>, WechatError>(WechatError::AesDecryptFailed),
        res is Ok ==> {
            &&& ciphertext@.len() % 16 == 0
            &&& res->Ok_0@.len() < ciphertext@.len() <= res->Ok_0@.len() + 16
        },
        aes_key@.len() == 16 ==> same_bytes_result(
            res,
            match aes128_ecb_pkcs7_decrypt(aes_key@, ciphertext@) {
                Some(p) => Ok(p),
                None => Err(WechatError::AesDecryptFailed),
            },
        ),
{
    if aes_key.len() != 16 {
        return Err(WechatError::InvalidAesKey);
    }
    match aes128_ecb_decrypt(aes_key, ciphertext) {
        Some(p) => Ok(p),
        None => Err(WechatError::AesDecryptFailed),
    }
}

/// Lower-case hexadecimal digit for a value below 16.
pub open spec fn hex_char(n: int) -> char {
    if n < 10 {
        (48 + n) as char
    } else {
        (87 + n) as char
    }
}

/// Lower-case hexadecimal text of `bytes`, two digits per byte, high half first
/// (what `hex::encode` writes).
pub open spec fn hex_encode_chars(bytes: Seq<u8>) -> Seq<char> {
    Seq::new(
        2 * bytes.len(),
        |i: int|
            if i % 2 == 0 {
                hex_char(bytes[i / 2] as int / 16)
            } else {
                hex_char(bytes[i / 2] as int % 16)
            },
    )
}

proof fn lemma_hex_char_byte(n: int)
    requires
        0 <= n < 16,
    ensures
        '\0' <= hex_char(n) <= '\u{7f}',
        hex_digit_value(hex_char(n) as u8) == Some(n as u8),
{
}

/// Decoding the hexadecimal text of some bytes gives those bytes back, and that
/// text is ASCII, hence valid UTF-8.
pub proof fn hex_text_round_trip(bytes: Seq<u8>)
    ensures
        encode_utf8(hex_encode_chars(bytes)).len() == 2 * bytes.len(),
        valid_utf8(encode_utf8(hex_encode_chars(bytes))),
        hex_decode_spec(encode_utf8(hex_encode_chars(bytes))) == Some(bytes),
{
    let t = hex_encode_chars(bytes);
    assert forall|i: int| 0 <= i < t.len() implies '\0' <= #[trigger] t[i] <= '\u{7f}' by {
        lemma_hex_char_byte(bytes[i / 2] as int / 16);
        lemma_hex_char_byte(bytes[i / 2] as int % 16);
    }
    assert(is_ascii_chars(t));
    is_ascii_chars_encode_utf8(t);
    encode_utf8_valid_utf8(t);
    let b = encode_utf8(t);
    assert forall|i: int| 0 <= i < b.len() implies (#[trigger] hex_digit_value(b[i])) is Some by {
        assert(b[i] == t[i] as u8);
        lemma_hex_char_byte(bytes[i / 2] as int / 16);
        lemma_hex_char_byte(bytes[i / 2] as int % 16);
    }
    let d = hex_decode_spec(b)->Some_0;
    assert forall|j: int| 0 <= j < bytes.len() implies d[j] == bytes[j] by {
        assert(b[2 * j] == t[2 * j] as u8);
        assert(b[2 * j + 1] == t[2 * j + 1] as u8);
        assert((2 * j) / 2 == j);
        assert((2 * j + 1) / 2 == j);
        assert((2 * j) % 2 == 0);
        assert((2 * j + 1) % 2 == 1);
        lemma_hex_char_byte(bytes[j] as int / 16);
        lemma_hex_char_byte(bytes[j] as int % 16);
    }
    assert(d =~= bytes);
}

/// The three ways of giving a 16-byte media key agree: a base64 key whose
/// decoding is the key itself, a base64 key whose decoding is the key's
/// hexadecimal text, and that hexadecimal text given directly (whatever the
/// media's own key) all give the same key, hence the same decryption.
pub proof fn media_key_forms_agree(
    key: Seq<u8>,
    raw_base64: Seq<char>,
    hex_base64: Seq<char>,
    other_media_key: Seq<char>,
)
    requires
        key.len() == 16,
        base64_standard_decode(encode_utf8(raw_base64)) == Some(key),
        base64_standard_decode(encode_utf8(hex_base64)) == Some(
            encode_utf8(hex_encode_chars(key)),
        ),
    ensures
        media_key_spec(raw_base64, None) == Ok::<Seq<u8>, WechatError>(key),
        media_key_spec(hex_base64, None) == Ok::<Seq<u8>, WechatError>(key),
        media_key_spec(other_media_key, Some(hex_encode_chars(key))) == Ok::<Seq<u8>, WechatError>(
            key,
        ),
{
    hex_text_round_trip(key);
}

/// How a decoded base64 key is used: 16 bytes are the key as they stand; a
/// decoding of any length other than 16 or 32 is refused with that length; 32
/// bytes that are not UTF-8 are refused as such; a given hexadecimal key that
/// does not decode is refused, whatever the media's own key; a media key that
/// is not base64 is refused.
pub proof fn media_key_refusals(buf: Seq<u8>, media_key: Seq<char>, hex_key: Seq<char>)
    ensures
        buf.len() == 16 ==> key_from_decoded_spec(buf) == Ok::<Seq<u8>, WechatError>(buf),
        buf.len() != 16 && buf.len() != 32 && buf.len() <= usize::MAX ==> key_from_decoded_spec(buf)
            == Err::<Seq<u8>, WechatError>(WechatError::UnexpectedAesKeyLen(buf.len() as usize)),
        buf.len() == 32 && !valid_utf8(buf) ==> key_from_decoded_spec(buf) == Err::<
            Seq<u8>,
            WechatError,
        >(WechatError::InvalidUtf8),
        hex_decode_spec(encode_utf8(hex_key)) is None ==> media_key_spec(media_key, Some(hex_key))
            == Err::<Seq<u8>, WechatError>(WechatError::InvalidHex),
        base64_standard_decode(encode_utf8(media_key)) is None ==> media_key_spec(media_key, None)
            == Err::<Seq<u8>, WechatError>(WechatError::InvalidBase64),
{
}

} // verus!
