[package]
name = "tickpulse"
version = "0.1.0"
edition = "2021"
publish = false

[dependencies]
regex = "=1.13.1"
serde = { version = "=1.0.229", features = ["derive"] }
serde_json = "=1.0.154"
rust_decimal = "=1.43.0"
chrono = "=0.4.45"
tokio = { version = "=1.54.1", features = ["rt", "rt-multi-thread", "time", "sync", "macros"] }
async-trait = "=0.1.92"
uuid = { version = "=1.29.1", features = ["v4"] }
lru = "=0.19.0"
dashmap = "=6.2.1"
parking_lot = "=0.12.5"
once_cell = "=1.21.4"
sha2 = "=0.10.9"
thiserror = "=2.0.21"
tracing = "=0.1.44"
tracing-subscriber = { version = "=0.3.23", features = ["env-filter"] }
tracing-appender = "0.2"
tokio-util = "0.7"
sysinfo = "0.32"
rusqlite = { version = "=0.41.1", features = ["bundled"] }
reqwest = { version = "=0.13.5", default-features = false, features = ["json"] }
