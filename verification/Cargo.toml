[package]
name = "solana_geyser_clickhouse"
version = "0.1.0"
edition = "2021"
publish = false

[dependencies]
agave-geyser-plugin-interface = "=2.3.13"
chrono = "=0.4.45"
clickhouse = "=0.15.3"
hex = "=0.4.3"
log = "=0.4.35"
serde = { version = "=1.0.229", features = ["derive"] }
serde_json = "=1.0.154"
thiserror = "=2.0.21"
tokio = { version = "=1.54.1", features = ["rt-multi-thread", "sync", "time", "macros"] }
