[package]
name = "imserver"
version = "0.1.0"
edition = "2021"
publish = false

[dependencies]
bytes = "1"
lazy_static = "1"
s2n-quic = "1"
slog = "2"
tokio = { version = "1", features = ["full"] }
tracing = "0.1"
