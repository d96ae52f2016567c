[package]
name = "nautic"
version = "0.1.0"
edition = "2021"
publish = false

[dependencies]
byteorder = "1"
chrono = { version = "0.4", features = ["serde"] }
serde = { version = "1", features = ["derive"] }
serde_yaml = "0.9"
serde_json = "1"
bincode = "1"
tokio = { version = "1", features = ["full"] }
tokio-serial = "5"
gpio-cdev = "0.6"
lapin = "2"
clap = { version = "4", features = ["derive", "env"] }
dotenv = "0.15"
anyhow = "1"
tracing = "0.1"
tracing-subscriber = "0.3"
uuid = { version = "1", features = ["v4"] }
futures = "0.3"
influxdb = "0.7"
