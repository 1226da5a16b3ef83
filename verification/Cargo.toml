[package]
name = "pinnacle"
version = "0.1.0"
edition = "2021"
publish = false

[dependencies]
anyhow = "1"
async-process = "*"
calloop = { version = "*", features = ["executor"] }
futures-lite = "*"
serde = { version = "1", features = ["derive"] }
shellexpand = "3"
smithay = { version = "*", default-features = false, features = ["backend_libinput", "desktop", "wayland_frontend", "xwayland"] }
tokio = { version = "1", features = ["rt", "rt-multi-thread", "sync"] }
tokio-stream = "0.1"
toml = "*"
tonic = "*"
tracing = "0.1"
