[package]
name = "exchange_rate"
version = "0.1.0"
edition = "2021"
publish = false

[dependencies]
regex = "1"
reqwest = "0.12"
rustc-serialize = "0.3"
tokio = { version = "1", features = ["macros", "rt-multi-thread"] }
