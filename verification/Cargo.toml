[package]
name = "sticker_dispatch"
version = "0.1.0"
edition = "2021"
publish = false

[dependencies]
sticker-printer = "=0.1.0"
rfd = "0.15"
tokio = { version = "1", features = ["fs", "rt"] }
tracing-subscriber = "0.3"
