[package]
name = "indicators"
version = "0.1.0"
edition = "2021"
publish = false

[dependencies]
chrono = "=0.4.45"
config = "=0.15.27"
tokio = { version = "=1.54.1", features = ["macros", "rt-multi-thread"] }
tonic = "=0.14.9"
tracing = "=0.1.44"
tracing-subscriber = "=0.3.23"
