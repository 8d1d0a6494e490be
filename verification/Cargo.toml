[package]
name = "socketioxide"
version = "0.1.0"
edition = "2021"
publish = false

[dependencies]
engineioxide = { version = "=0.12.0", features = ["v3"] }
futures = "=0.3.34"
serde = "=1.0.229"
serde_json = "=1.0.154"
tokio = { version = "=1.54.1", features = ["rt", "sync", "time"] }
tower = "=0.4.13"
