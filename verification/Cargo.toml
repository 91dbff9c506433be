[package]
name = "ceremony_sequencer"
version = "0.1.0"
edition = "2021"
publish = false

[dependencies]
serde = { version = "*", features = ["derive"] }
tokio = { version = "*", features = ["rt", "rt-multi-thread", "macros", "sync"] }
tracing = "*"
axum = "*"
