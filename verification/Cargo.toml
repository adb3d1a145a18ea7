[package]
name = "kernel"
version = "0.1.0"
edition = "2021"
publish = false

[dependencies]
tokio = { version = "1", features = ["rt-multi-thread", "macros", "signal", "sync"] }
tracing = "0.1"
twilight-gateway = "0.16"
twilight-http = "0.16"
twilight-model = "0.16"
