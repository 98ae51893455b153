[package]
name = "rdp_probe"
version = "0.1.0"
edition = "2021"
publish = false

[dependencies]
clap = { version = "4", features = ["cargo"] }
colored = "2"
futures = "0.3"
rdp-rs = "0.1"
tokio = { version = "1", features = ["full"] }
