[package]
name = "anycall"
version = "0.1.0"
edition = "2021"
publish = false

[dependencies]
serde = { version = "=1.0.229", features = ["derive"] }
serde_json = "=1.0.154"
ciborium = "=0.2.2"
thiserror = "=2.0.21"
http = "=1.5.0"
arc-swap = "=1.9.3"
proc-macro2 = "=1.0.107"
quote = "=1.0.47"
syn = { version = "=2.0.119", features = ["full", "extra-traits"] }
futures = "=0.3.34"
axum = "=0.8.9"
reqwest = { version = "=0.12.28", default-features = false }
tokio = { version = "=1.54.1", features = ["rt", "sync", "macros", "net", "time"] }
iroh = "=1.4.1"
n0-future = "=0.3.2"
