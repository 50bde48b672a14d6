[package]
name = "mitch_cli"
version = "0.1.0"
edition = "2021"
publish = false

[dependencies]
anyhow = "1"
bluez-async = "*"
btleplug = "0.11"
clap = { version = "4", features = ["derive"] }
ctrlc-async = "*"
dbus = { version = "0.9", features = ["vendored"] }
futures = "0.3"
lsl = "*"
serde = { version = "1", features = ["derive"] }
serde_json = "1"
tokio = { version = "1", features = ["full"] }
tracing = "0.1"
uuid = "1"
