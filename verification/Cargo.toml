[package]
name = "file_fusion"
version = "0.1.0"
edition = "2021"
publish = false

[dependencies]
chrono = "=0.4.39"
datafusion = "=35.0.0"
directories = "=5.0.1"
futures = "0.3"
object_store = { version = "=0.9.1", features = ["aws"] }
serde = { version = "1", features = ["derive"] }
serde_json = "1"
thiserror = "1"
tokio = { version = "1", features = ["full"] }
url = "=2.5.8"
uuid = { version = "1", features = ["v4"] }
