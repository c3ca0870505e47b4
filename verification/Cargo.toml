[package]
name = "archr_core"
version = "1.0.0"
edition = "2021"
publish = false

[dependencies]
serde = { version = "=1.0.229", features = ["derive"] }
serde_yaml = "=0.9.34"
serde_json = "=1.0.154"
quick-xml = { version = "=0.42.0", features = ["serialize"] }
uuid = { version = "=1.29.0", features = ["v4"] }
thiserror = "=2.0.21"
clap = { version = "=4.6.7", features = ["derive"] }
