# wechat_sdk

SDK for WeChat bots: QR-code login, local account and session state, polling
for messages, sending replies and typing notifications, and decrypting media.

- `src/` is the verified library (Verus). It holds the decisions and data of
  the SDK: configuration from environment values and the state-file paths
  (`client::config`), the QR-login state machine (`account::login`), the QR
  status protocol (`account::qr_code_api`), the message model
  (`client::message`), request construction and answer handling for each API
  (`client::apis::*`), and AES key derivation and media decryption
  (`client::apis::cdn`). Calls into `base64`, `hex`, `aes`/`ecb` and `uuid` go
  through small trusted wrappers whose contracts are stated next to them.
- `app/` is the unverified shell: reading the process environment, files,
  HTTP with `reqwest`, JSON with `serde`, the async `WechatClient`, and the
  login loop that drives `account::login::QrLogin`.
- `tests/` exercises the library on concrete values.
