[package]
name = "infra-smoke-tests"
version = "0.1.0"
edition = "2021"
publish = false

[dependencies]
clap = { version = "4", features = ["derive"] }
getset = "0.1"
indent = "0.1"
reqwest = "0.12"
tokio = { version = "1", features = ["macros", "rt-multi-thread"] }
url = "2"
