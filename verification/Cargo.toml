[package]
name = "bot_core"
version = "0.1.0"
edition = "2021"
publish = false

[dependencies]
poise = "0.6"
tokio = { version = "1", features = ["macros", "rt-multi-thread"] }
tracing = "0.1"
tracing-subscriber = "0.3"
