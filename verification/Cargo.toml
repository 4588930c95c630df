[package]
name = "event_handler"
version = "0.1.0"
edition = "2021"
publish = false

[dependencies]
serde_json = "1"
serde = { version = "1", features = ["derive"] }
tokio = { version = "1", features = ["full"] }
reqwest = { version = "0.12", default-features = false, features = ["json"] }
async-trait = "0.1"
futures = "0.3"
azure_core = { version = "0.21", default-features = false, features = ["enable_reqwest_rustls"] }
azure_identity = { version = "0.21", default-features = false, features = ["enable_reqwest_rustls"] }
azure_security_keyvault = { version = "0.21", default-features = false, features = ["enable_reqwest_rustls"] }
azure_storage = { version = "0.21", default-features = false, features = ["enable_reqwest_rustls"] }
azure_storage_queues = { version = "0.21", default-features = false, features = ["enable_reqwest_rustls"] }
tmq = "0.4"
