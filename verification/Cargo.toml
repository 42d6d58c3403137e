[package]
name = "mobile_convex"
version = "0.1.0"
edition = "2021"
publish = false

[dependencies]
android_logger = "*"
anyhow = "1"
async-once-cell = "*"
convex = { version = "*", default-features = false }
flutter_rust_bridge = "*"
futures = "0.3"
log = "0.4"
parking_lot = "0.12"
serde_json = "1"
thiserror = "*"
tokio = { version = "1", features = ["rt", "rt-multi-thread", "sync", "time", "macros"] }
