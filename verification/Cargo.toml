[package]
name = "miru_client"
version = "0.1.0"
edition = "2021"
publish = false

[dependencies]
base64 = "=0.22.1"
chrono = "=0.4.45"
directories = "=5.0.1"
futures-util = "=0.3.34"
hex = "=0.4.3"
log = "=0.4.35"
md5 = "=0.7.0"
notify = "=6.1.1"
open = "=5.4.5"
reqwest = { version = "=0.12.28", default-features = false, features = ["json", "multipart", "stream", "rustls-tls"] }
rosu-pp = "=4.0.1"
semver = "=1.0.28"
serde = { version = "=1.0.229", features = ["derive"] }
serde_json = "=1.0.154"
sha2 = "=0.10.9"
thiserror = "=2.0.21"
tokio = { version = "=1.54.1", features = ["full"] }
tokio-tungstenite = { version = "=0.26.2", features = ["rustls-tls-webpki-roots"] }
tokio-util = { version = "=0.7.20", features = ["io"] }
url = "=2.5.8"
uuid = { version = "=1.29.0", features = ["v4"] }
windows-sys = { version = "=0.61.2", features = ["Win32_Foundation", "Win32_Security_Cryptography"] }
zip = { version = "=2.6.1", default-features = false, features = ["deflate"] }
