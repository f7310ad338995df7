[package]
name = "spectrocap"
version = "0.1.0"
edition = "2021"
publish = false

[dependencies]
base64 = "=0.22.1"
serde_json = "=1.0.154"
sha2 = "=0.10.9"
sodiumoxide = "=0.2.7"
dirs = "=7.0.0"
thiserror = "=1.0.69"
rusqlite = { version = "=0.40.2", features = ["bundled"] }
uuid = { version = "=1.29.0", features = ["v4"] }
log = "0.4"
reqwest = { version = "0.12", default-features = false }
tokio = { version = "1", features = ["rt", "time"] }
clipboard-win = "5"
winapi = { version = "0.3", features = ["dpapi", "wincrypt"] }
