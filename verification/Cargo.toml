[package]
name = "quantum_sdk"
version = "0.1.0"
edition = "2021"
publish = false

[dependencies]
serde = { version = "1", features = ["derive"] }
serde_json = "1"
reqwest = { version = "0.12", default-features = false, features = ["json", "multipart", "stream", "rustls-tls"] }
tokio = { version = "1", features = ["time", "sync", "net", "macros", "rt", "rt-multi-thread"] }
tokio-tungstenite = "0.24"
futures-util = { version = "0.3", features = ["sink"] }
bytes = "1"
pin-project-lite = "0.2"
urlencoding = "2"
uuid = { version = "1", features = ["v4"] }
