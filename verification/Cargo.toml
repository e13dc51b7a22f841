[package]
name = "framelink"
version = "0.1.0"
edition = "2021"
publish = false

[dependencies]
bytes = "1"
tokio = { version = "1", features = ["net", "io-util", "time", "rt-multi-thread", "macros"] }
socket2 = { version = "0.5", features = ["all"] }
rand = "0.8"
serde = { version = "1", features = ["derive"] }
serde_json = "1"
