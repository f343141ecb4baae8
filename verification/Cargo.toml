[package]
name = "order_core"
version = "0.1.0"
edition = "2021"
publish = false

[dependencies]
dashmap = "=6.2.1"
uuid = { version = "=1.27.0", features = ["v4", "serde"] }
serde = { version = "=1.0.229", features = ["derive"] }
warp = { version = "=0.4.3", features = ["server"] }
tokio = { version = "*", features = ["rt-multi-thread", "macros"] }
