[package]
name = "artist_sync"
version = "0.1.0"
edition = "2021"
publish = false

[dependencies]
chrono = "0.4"
deadpool-redis = "*"
dotenv = "0.15"
futures = "0.3"
once_cell = "1"
r2d2 = "0.8"
r2d2_sqlite = "*"
redis = "*"
reqwest = "0.12"
rusqlite = "*"
serde = { version = "1", features = ["derive"] }
serde_json = "1"
tokio = { version = "1", features = ["full"] }
urlencoding = "2"
