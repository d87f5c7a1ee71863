[package]
name = "bmbp_orm"
version = "0.1.0"
edition = "2021"
publish = false

[dependencies]
bb8 = "=0.9.1"
bb8-postgres = "=0.9.0"
bb8-oracle = "=0.3.0"
tokio-postgres = { version = "=0.7.18", features = ["with-chrono-0_4"] }
rusqlite = { version = "=0.40.2", features = ["bundled"] }
mysql_async = "=0.37.1"
async-trait = "*"
chrono = "=0.4.45"
serde = { version = "*", features = ["derive"] }
tokio = { version = "*", features = ["rt", "rt-multi-thread", "sync", "time"] }
tracing = "*"
