[package]
name = "web"
version = "0.1.0"
edition = "2021"
publish = false

[dependencies]
regex = "*"
serde_json = "*"
httpdate = "*"
tokio = { version = "*", features = ["net", "io-util", "rt-multi-thread", "macros"] }
