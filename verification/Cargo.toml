[package]
name = "signaling_reflector"
version = "0.1.0"
edition = "2021"
publish = false

[dependencies]
parking_lot = "0.12"
tokio = { version = "1", features = ["macros", "net", "rt", "sync"] }
tracing = "0.1"
