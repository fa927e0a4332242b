[package]
name = "weather_widget"
version = "0.1.0"
edition = "2021"
publish = false

[dependencies]
crossbeam = "0.8"
reqwest = { version = "0.11", default-features = false, features = ["blocking", "rustls-tls"] }
serde = { version = "1", features = ["derive"] }
serde_json = "1"
