[package]
name = "drop-stream"
version = "0.3.2"
edition = "2021"
publish = false

[dependencies]
futures-core = { version = "0.3", default-features = false }

[dev-dependencies]
futures = "0.3"
