[package]
name = "kcl_lib"
version = "0.1.0"
edition = "2021"
publish = false

[dependencies]
uuid = { version = "1", features = ["v4"] }

[dev-dependencies]
serde_json = "1"
