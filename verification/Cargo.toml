[package]
name = "reqwest_client"
version = "0.1.0"
edition = "2021"
publish = false

[dependencies]
reqwest = { version = "0.12", default-features = false, features = ["stream"] }
tokio = { version = "1", features = ["rt", "net", "time", "io-util"] }
futures = { version = "0.3", features = ["thread-pool"] }
bytes = "1"

[dev-dependencies]
tokio = { version = "1", features = ["rt", "rt-multi-thread", "net", "time", "io-util"] }
futures = { version = "0.3", features = ["thread-pool"] }
