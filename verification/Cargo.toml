[package]
name = "kimi_quota_bar"
version = "0.1.0"
edition = "2021"
publish = false

[dependencies]
aes = "0.8"
aes-gcm = "0.10"
anyhow = "1"
base64 = "0.22"
cbc = "0.1"
dirs = "5"
env_logger = { version = "0.11", default-features = false }
log = "0.4"
pbkdf2 = "0.12"
qrcode = { version = "0.14", default-features = false }
rand = "0.8"
serde_json = "1"
sha1 = "0.10"
ureq = { version = "2", features = ["json"] }
url = "2"
windows-sys = { version = "0.59", features = ["Win32_Foundation", "Win32_Security_Cryptography", "Win32_System_Console"] }
