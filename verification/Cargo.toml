[package]
name = "aloo"
version = "0.1.0"
edition = "2021"
publish = false

[dependencies]
ipnet = { version = "=2.12.2", features = ["serde"] }
chrono = { version = "=0.4.45", features = ["serde"] }
uuid = { version = "=1.29.0", features = ["v4", "serde"] }
regex = "=1.13.1"
dashmap = "=6.2.1"
serde = { version = "=1.0.229", features = ["derive"] }
toml = "=0.8.23"
thiserror = "=1.0.69"
anyhow = "=1.0.104"
async-trait = "=0.1.92"
tokio = { version = "=1.54.1", features = ["full"] }
tracing = "=0.1.44"
tracing-subscriber = { version = "=0.3.23", features = ["env-filter", "json"] }
clap = { version = "=4.6.7", features = ["derive", "env"] }
console = "=0.15.11"
indicatif = "=0.17.11"
sqlx = { version = "=0.8.6", default-features = false, features = ["sqlite", "runtime-tokio"] }
