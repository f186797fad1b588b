[package]
name = "solar_sim"
version = "0.1.0"
edition = "2021"
publish = false

[dependencies]
dotenv = "0.15"
rdkafka = "0.36"
serde = { version = "1", features = ["derive"] }
serde_json = "1"
tokio = { version = "1", features = ["full"] }
uuid = { version = "1", features = ["v4", "serde"] }
warp = "0.3"
ws = "0.9"
