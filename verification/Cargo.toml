[package]
name = "trance"
version = "0.1.0"
edition = "2021"
publish = false

[dependencies]
zbus = "5"
tokio = { version = "1", features = ["rt-multi-thread", "time", "process", "io-util", "macros"] }
futures-lite = "2"
libc = "0.2"
notify = "8"
signal-hook = "0.3"
tracing = "0.1"
tracing-subscriber = { version = "0.3", features = ["env-filter"] }
tracing-journald = "0.3"
anyhow = "1"
