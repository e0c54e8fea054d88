[package]
name = "container_provision"
version = "0.1.0"
edition = "2021"
publish = false

[dependencies]
anyhow = "1"
bollard = "0.18"
futures-util = "0.3"
tar = "0.4"
tokio = { version = "1", features = ["macros", "rt-multi-thread"] }
