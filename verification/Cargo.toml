[package]
name = "bong"
version = "0.1.0"
edition = "2021"
publish = false

[dependencies]
anyhow = "*"
parking_lot = "*"
tokio = { version = "*", features = ["rt-multi-thread", "time", "macros"] }
tray-icon = "*"
image = "*"

[dev-dependencies]
serde_json = "*"
