[package]
name = "dsmr5-exporter"
version = "0.1.0"
edition = "2021"
publish = false

[dependencies]
axum = "0.6"
bytes = "1"
clap = { version = "4", features = ["derive"] }
dsmr5 = "*"
futures = "0.3"
prometheus = "0.13"
tokio = { version = "1", features = ["full"] }
tokio-serial = "5.4"
tokio-util = { version = "0.7", features = ["codec"] }
