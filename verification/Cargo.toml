[package]
name = "cloud_state"
version = "0.1.0"
edition = "2021"
publish = false

[dependencies]
chrono = "=0.4.45"
futures = "=0.3.34"
schemars = "=0.8.22"
serde = { version = "=1.0.229", features = ["derive"] }
serde_json = { version = "=1.0.154", features = ["raw_value"] }
sqlx = { version = "=0.8.6", default-features = false, features = ["json", "mysql", "runtime-tokio"] }
thiserror = "=2.0.21"
tokio = { version = "=1.54.1", features = ["rt-multi-thread", "sync"] }
ts-rs = "=11.1.0"
uuid = { version = "=1.29.0", features = ["v7"] }
