[package]
name = "lelof1sv3"
version = "0.1.0"
edition = "2021"
publish = false

[dependencies]
uuid = "1"
tokio = { version = "1", features = ["sync", "time", "rt", "macros"] }
