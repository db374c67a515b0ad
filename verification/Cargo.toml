[package]
name = "rust_api"
version = "0.1.0"
edition = "2021"
publish = false

[dependencies]
chrono = "0.4"
tokio = { version = "1", features = ["macros", "rt-multi-thread"] }
warp = "0.3"

[dev-dependencies]
serde_json = "1"
