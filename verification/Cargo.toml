[package]
name = "pointlock"
version = "0.1.0"
edition = "2021"
publish = false

[dependencies]
async-trait = "0.1"
devicerail-client = "*"
futures-core = "0.3"
futures-util = "0.3"
gethostname = "1"
hmac = "0.12"
schemars = "1"
serde = { version = "1", features = ["derive"] }
serde_json = "1"
sha2 = "0.10"
thiserror = "2"
tokio = { version = "1", features = ["macros", "rt", "rt-multi-thread", "sync", "time"] }
tokio-util = "0.7"
uuid = { version = "1", features = ["v4"] }
