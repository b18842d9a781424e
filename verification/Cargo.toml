[package]
name = "dash_ha"
version = "0.1.0"
edition = "2021"
publish = false

[dependencies]
bincode = "1"
futures = "0.3"
proc-macro2 = "1"
quote = "1"
serde = { version = "1", features = ["derive"] }
serde_json = "1"
syn = { version = "2", features = ["full"] }
tokio = { version = "1", features = ["macros", "rt", "sync", "time"] }
tokio-util = { version = "0.7", features = ["rt"] }
