[package]
name = "cortex"
version = "0.1.0"
edition = "2021"
publish = false

[dependencies]
bevy = { version = "=0.17.3", default-features = false, features = ["std", "bevy_log", "bevy_asset", "reflect_functions"] }
bevy_math = { version = "=0.17.3", default-features = false, features = ["curve"] }
serde = { version = "=1.0.229", features = ["derive"] }
serde_json = "=1.0.154"
toml = "=1.1.8"
rmp-serde = "=1.3.1"
ciborium = "=0.2.2"
postcard = { version = "=1.1.3", features = ["alloc"] }
enum_delegate = "=0.2.0"
