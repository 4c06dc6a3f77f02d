[package]
name = "vote_perceptron"
version = "0.1.0"
edition = "2021"
publish = false

[dependencies]
anyhow = "1"
candle-core = "*"
candle-nn = "*"
tokio = { version = "1", features = ["macros", "rt-multi-thread"] }
