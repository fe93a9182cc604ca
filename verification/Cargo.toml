[package]
name = "channel_traits"
version = "0.1.0"
edition = "2021"
publish = false

[dependencies]
async-channel = "2"
async-trait = "0.1"
dyn-clone = "1"
futures-core = "0.3"
tokio = { version = "1", features = ["sync"] }
