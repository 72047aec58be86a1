[package]
name = "swe_edge_runtime"
version = "0.1.0"
edition = "2021"
publish = false

[dependencies]
serde = { version = "1", features = ["derive"] }
serde_json = "1"
toml = "0.8"
thiserror = "1"
dirs = "5"
parking_lot = "0.12"
futures = "0.3"
tokio = { version = "1", features = ["rt", "rt-multi-thread", "macros", "signal", "time", "sync"] }
tracing = "0.1"
