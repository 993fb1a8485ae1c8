[package]
name = "gecko_client"
version = "0.1.0"
edition = "2021"
publish = false

[dependencies]
chrono = "0.4"
dht11_gpio = "*"
dotenv = "0.15"
mongodb = "2"
serde = { version = "1", features = ["derive"] }
tokio = { version = "1", features = ["full"] }
tracing = "0.1"
tracing-subscriber = "0.3"
