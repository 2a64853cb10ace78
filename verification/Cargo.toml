[package]
name = "arroyo_sql"
version = "0.1.0"
edition = "2021"
publish = false

[dependencies]
anyhow = "=1.0.104"
axum = "=0.8.9"
datafusion = { version = "=55.2.0", default-features = false, features = ["sql"] }
quote = "=1.0.47"
rumqttc = { version = "=0.25.1", features = ["url"] }
rustls-native-certs = "=0.8.5"
rustls-pemfile = "=2.2.0"
serde = { version = "=1.0.229", features = ["derive"] }
serde_json = "=1.0.154"
syn = { version = "=1.0.109", features = ["full"] }
tokio = { version = "=1.54.1", features = ["rt", "rt-multi-thread", "sync", "macros"] }
tokio-rustls = "=0.26.6"
url = "=2.5.8"
