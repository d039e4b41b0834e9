[package]
name = "cradle"
version = "0.1.0"
edition = "2021"
publish = false

[dependencies]
tokio = { version = "1", features = ["rt-multi-thread", "process"] }

[dev-dependencies]
tempfile = "3"
gag = "*"
