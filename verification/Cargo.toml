[package]
name = "trayasen"
version = "0.1.0"
edition = "2021"
publish = false

[dependencies]
btleplug = "=0.13.5"
dbus = { version = "=0.9.12", features = ["vendored"] }
tokio = { version = "=1.54.1", features = ["rt-multi-thread", "time"] }
uuid = "=1.29.0"
serde = { version = "=1.0.229", features = ["derive"] }
serde_json = "=1.0.154"
thiserror = "=1.0.69"
