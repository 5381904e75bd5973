[package]
name = "portal_relay"
version = "0.1.0"
edition = "2021"
publish = false

[dependencies]
serde = { version = "=1.0.229", features = ["derive"] }
serde_json = "=1.0.151"
tokio = { version = "=1.53.2", features = ["rt-multi-thread", "net", "sync", "time", "macros"] }
warp = { version = "=0.4.3", features = ["server", "websocket"] }
axum = "=0.8.9"
futures-util = "=0.3.34"
tower-http = { version = "=0.7.1", features = ["cors"] }
