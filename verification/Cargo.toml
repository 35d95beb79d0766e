[package]
name = "zap_clock"
version = "0.1.0"
edition = "2021"
publish = false

[dependencies]
flutter_rust_bridge = "=2.13.0"
nostr = { version = "=0.39.0", features = ["std", "nip47"] }
nostr-sdk = "=0.43.0"
nwc = "=0.43.1"
rand = "=0.8.8"
reqwest = { version = "=0.12.28", features = ["json"] }
serde = { version = "=1.0.229", features = ["derive"] }
tokio = { version = "=1.54.1", features = ["rt", "time", "macros"] }
tracing = "=0.1.44"
tracing-log = "=0.2.0"
tracing-subscriber = { version = "=0.3.23", features = ["env-filter"] }
