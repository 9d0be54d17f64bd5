[package]
name = "gb_core"
version = "0.2.0"
edition = "2021"
publish = false

[dependencies]
serde = { version = "=1.0.229", features = ["derive"] }
bincode = "=1.3.3"
log = "=0.4.35"
env_logger = "=0.11.11"
axum = "=0.7.9"
tokio = { version = "=1.54.1", features = ["macros", "rt-multi-thread", "net"] }
tower-http = { version = "=0.7.1", features = ["cors"] }
base64 = "=0.22.1"
minifb = "*"
cpal = "*"
