[package]
name = "syn2mas"
version = "0.1.0"
edition = "2021"
publish = false

[dependencies]
ulid = { version = "=1.1.3", features = ["uuid"] }
rand = "=0.8.8"
uuid = "=1.29.0"
chrono = { version = "=0.4.45", features = ["serde"] }
futures-util = "=0.3.34"
thiserror = "=2.0.21"
thiserror-ext = "=0.3.0"
tracing = "=0.1.44"
serde = { version = "=1.0.229", features = ["derive"] }
serde_json = "=1.0.154"
axum = "=0.8.9"
aide = { version = "=0.15.1", features = ["axum", "axum-json", "macros"] }
schemars = { version = "=0.9.0", features = ["chrono04"] }
hyper = "=1.12.0"
