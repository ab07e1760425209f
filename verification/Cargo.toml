[package]
name = "cta_bot"
version = "0.1.0"
edition = "2021"
publish = false

[dependencies]
chrono = { version = "=0.4.45", features = ["serde"] }
chrono-tz = "=0.10.4"
dotenv = "=0.15.0"
env_logger = { version = "=0.11.11", default-features = false }
fuzzy-matcher = "=0.3.7"
gtfs-structures = { version = "=0.52.0", default-features = false }
reqwest = { version = "=0.12.28", default-features = false, features = ["rustls-tls"] }
resvg = { version = "*", default-features = false, features = ["text"] }
serde = { version = "=1.0.229", features = ["derive"] }
serde_json = "=1.0.154"
serde_structuredqs = "=0.2.0"
serde_variant = "=0.1.3"
serde_with = "=3.24.0"
serenity = { version = "=0.12.5", default-features = false, features = ["builder", "chrono", "client", "gateway", "http", "model", "rustls_backend"] }
sqlx = { version = "=0.8.6", default-features = false, features = ["derive", "json", "postgres", "runtime-tokio"] }
svg = "=0.18.0"
thiserror = "=2.0.21"
tokio = { version = "=1.54.1", features = ["macros", "rt-multi-thread"] }
