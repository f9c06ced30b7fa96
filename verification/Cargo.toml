[package]
name = "sensor_ingest"
version = "0.1.0"
edition = "2021"
publish = false

[dependencies]
anyhow = "=1.0.104"
chrono = "=0.4.45"
serde = { version = "=1.0.229", features = ["derive"] }
serde_json = "=1.0.151"
tokio = { version = "=1.53.2", features = ["fs", "io-util", "net", "rt-multi-thread", "macros"] }
tokio-postgres = { version = "=0.7.18", features = ["with-chrono-0_4"] }
