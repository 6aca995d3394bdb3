[package]
name = "watch_sync"
version = "0.1.0"
edition = "2021"
publish = false

[dependencies]
dashmap = "6"
orion = "0.17"
base64 = "0.22"
chrono = "0.4"
uuid = { version = "1", features = ["v7"] }
serde = { version = "1", features = ["derive"] }
serde_json = "1"
axum = "0.8"
tokio = { version = "1", features = ["full"] }
sea-orm = { version = "1", default-features = false, features = ["macros", "with-json"] }
sea-orm-migration = { version = "1", default-features = false }
sea-query = "0.32"
socketioxide = "*"
tower = "0.5"
tower-http = { version = "0.6", features = ["cors", "fs", "limit"] }
tower_governor = "*"
tracing = "0.1"
tracing-subscriber = "0.3"
dotenv = "0.15"
lazy_static = "1"
async-trait = "0.1"
