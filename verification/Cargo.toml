[package]
name = "onetimesecret_desktop"
version = "0.1.0"
edition = "2021"
publish = false

[dependencies]
base64 = "0.22"
url = "2"
serde_json = "1"
reqwest = { version = "0.12", default-features = false, features = ["rustls-tls"] }
keyring = { version = "3", features = ["apple-native", "windows-native", "linux-native"] }
tokio = { version = "1", features = ["rt", "macros"] }
log = "0.4"
env_logger = "0.11"
