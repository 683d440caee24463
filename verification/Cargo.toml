[package]
name = "pingbot"
version = "0.1.0"
edition = "2021"
publish = false

[dependencies]
anyhow = "*"
futures = "*"
tokio = { version = "*", features = ["macros", "rt-multi-thread"] }
twilight-cache-inmemory = "*"
twilight-gateway = "*"
twilight-http = "*"
twilight-model = "*"
