[package]
name = "presence_sync"
version = "0.1.0"
edition = "2021"
publish = false

[dependencies]
serde_json = "*"
serde = { version = "*", features = ["derive"] }
tokio = { version = "*", features = ["rt-multi-thread", "sync", "time", "macros"] }
futures = "*"
reqwest = { version = "*", default-features = false, features = ["stream"] }
discord-rich-presence = "*"
once_cell = "*"
parking_lot = "*"
