[package]
name = "opvault"
version = "0.1.0"
edition = "2021"
publish = false

[dependencies]
serde_json = "1"
base64 = "*"
sha2 = "*"
hmac = "*"
pbkdf2 = "*"
aes = "*"
cbc = "*"
