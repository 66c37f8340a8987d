[package]
name = "os_base"
version = "0.1.0"
edition = "2021"
publish = false

[dependencies]
bevy = { version = "=0.10.1", default-features = false, features = ["bevy_asset"] }
serde = { version = "1", features = ["derive"] }
serde_json = "1"
shrinkwraprs = "0.3"
