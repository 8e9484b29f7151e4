use aes::cipher::block_padding::Pkcs7;
use aes::cipher::{BlockModeEncrypt, KeyInit};
use base64::Engine;
use wechat_sdk::client::apis::cdn::{
    aes_key_from_decoded, decrypt_aes_ecb, Base64AesKey, CdnMedia, HexAesKey,
};
use wechat_sdk::error::WechatError;

const KEY: [u8; 16] = [0x00, 0x11, 0x22, 0x33, 0x44, 0x55, 0x66, 0x77, 0x88, 0x99, 0xaa, 0xbb, 0xcc, 0xdd, 0xee, 0xff];

fn media(b64: String) -> CdnMedia {
    CdnMedia { aes_key: Base64AesKey(b64), encrypt_query_param: String::new(), full_url: String::new() }
}

fn b64(bytes: &[u8]) -> String {
    base64::engine::general_purpose::STANDARD.encode(bytes)
}

fn encrypt(key: &[u8], plain: &[u8]) -> Vec<u8> {
    let enc = ecb::Encryptor::<aes::Aes128>::new_from_slice(key).unwrap();
    let mut buf = plain.to_vec();
    buf.resize((plain.len() / 16 + 1) * 16, 0);
    enc.encrypt_padded::<Pkcs7>(&mut buf, plain.len()).unwrap().to_vec()
}

#[test]
fn hex_key_wins_and_is_decoded() {
    let m = media("not base64!".to_string());
    let key = m.aes_key_bytes(Some(&HexAesKey("00112233445566778899AABBccddeeff".to_string()))).unwrap();
    assert_eq!(key, KEY.to_vec());
    assert_eq!(m.aes_key_bytes(Some(&HexAesKey("0g".to_string()))).unwrap_err(), WechatError::InvalidHex);
    assert_eq!(m.aes_key_bytes(Some(&HexAesKey("abc".to_string()))).unwrap_err(), WechatError::InvalidHex);
}

#[test]
fn base64_raw_key() {
    assert_eq!(media(b64(&KEY)).aes_key_bytes(None).unwrap(), KEY.to_vec());
}

#[test]
fn base64_of_hex_text_key() {
    let text = hex::encode(KEY);
    assert_eq!(media(b64(text.as_bytes())).aes_key_bytes(None).unwrap(), KEY.to_vec());
}

#[test]
fn base64_key_errors() {
    assert_eq!(media("***".to_string()).aes_key_bytes(None).unwrap_err(), WechatError::InvalidBase64);
    assert_eq!(media(b64(&[1, 2, 3])).aes_key_bytes(None).unwrap_err(), WechatError::UnexpectedAesKeyLen(3));
    assert_eq!(aes_key_from_decoded(vec![0xff; 32]).unwrap_err(), WechatError::InvalidUtf8);
    assert_eq!(aes_key_from_decoded(vec![b'z'; 32]).unwrap_err(), WechatError::InvalidHex);
    assert_eq!(aes_key_from_decoded(KEY.to_vec()).unwrap(), KEY.to_vec());
}

#[test]
fn decrypt_round_trips_encryption() {
    let plain = b"hello, media bytes that span more than one block".to_vec();
    let ct = encrypt(&KEY, &plain);
    assert_ne!(ct, plain);
    assert_eq!(decrypt_aes_ecb(&KEY, &ct).unwrap(), plain);
    assert_eq!(decrypt_aes_ecb(&KEY, &encrypt(&KEY, b"")).unwrap(), Vec::<u8>::new());
}

#[test]
fn decrypt_errors() {
    assert_eq!(decrypt_aes_ecb(&KEY[..15], &[0u8; 16]).unwrap_err(), WechatError::InvalidAesKey);
    assert_eq!(decrypt_aes_ecb(&KEY, &[0u8; 15]).unwrap_err(), WechatError::AesDecryptFailed);
    assert_eq!(decrypt_aes_ecb(&KEY, &[]).unwrap_err(), WechatError::AesDecryptFailed);
    let ct = encrypt(&KEY, &[0u8; 16]);
    assert_eq!(ct.len(), 32);
    assert_eq!(decrypt_aes_ecb(&KEY, &ct[..16]).unwrap_err(), WechatError::AesDecryptFailed);
}

#[test]
fn three_key_forms_give_the_same_key_and_plaintext() {
    let text = hex::encode(KEY);
    let raw = media(b64(&KEY));
    let hex_b64 = media(b64(text.as_bytes()));
    let k1 = raw.aes_key_bytes(None).unwrap();
    let k2 = hex_b64.aes_key_bytes(None).unwrap();
    let k3 = raw.aes_key_bytes(Some(&HexAesKey(text.clone()))).unwrap();
    assert_eq!(k1, k2);
    assert_eq!(k2, k3);
    let ct = encrypt(&KEY, b"same body");
    assert_eq!(decrypt_aes_ecb(&k1, &ct).unwrap(), b"same body".to_vec());
    assert_eq!(decrypt_aes_ecb(&k3, &ct).unwrap(), decrypt_aes_ecb(&k2, &ct).unwrap());
}

#[test]
fn decrypt_length_bounds() {
    for n in [0usize, 1, 15, 16, 17, 31, 32] {
        let plain = vec![0xa5u8; n];
        let ct = encrypt(&KEY, &plain);
        assert_eq!(ct.len() % 16, 0);
        let p = decrypt_aes_ecb(&KEY, &ct).unwrap();
        assert_eq!(p, plain);
        assert!(p.len() < ct.len() && ct.len() <= p.len() + 16);
    }
    assert_eq!(decrypt_aes_ecb(&KEY, &[0u8; 17]).unwrap_err(), WechatError::AesDecryptFailed);
}
