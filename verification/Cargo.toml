[package]
name = "gears"
version = "0.1.0"
edition = "2021"
publish = false

[dependencies]
gts = "*"
jsonschema = { version = "*", default-features = false }
serde_json = "1"
serde = { version = "1", features = ["derive"] }
uuid = "1"
tokio = { version = "1", features = ["rt", "macros", "sync", "time"] }
tower-http = { version = "0.6", features = ["cors"] }
axum = { version = "0.8", default-features = false }
