[package]
name = "tracing_init"
version = "0.1.0"
edition = "2021"
publish = false

[dependencies]
tracing = "*"
tracing-subscriber = { version = "*", features = ["env-filter"] }
tracing-appender = "*"
tracing-gelf = "*"
tokio = { version = "*", features = ["rt", "time"] }
