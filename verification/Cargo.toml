[package]
name = "glowmarkt_logger"
version = "0.1.0"
edition = "2021"
publish = false

[dependencies]
chrono = "=0.4.45"
clap = { version = "=4.6.7", features = ["derive"] }
diesel = { version = "=2.3.14", features = ["sqlite", "r2d2", "chrono"] }
diesel_migrations = "=2.3.2"
libsqlite3-sys = { version = "=0.38.2", features = ["bundled"] }
paho-mqtt = { version = "=0.12.5", default-features = false, features = ["bundled"] }
serde_json = "=1.0.154"
tokio = { version = "=1.54.1", features = ["full"] }
tokio-stream = "=0.1.19"
uuid = { version = "=1.29.0", features = ["v4"] }
