[package]
name = "ref_editor"
version = "0.1.0"
edition = "2021"
publish = false

[dependencies]
futures-util = { version = "*", default-features = false }
rand = "=0.10.3"
reqwest = { version = "=0.13.5", default-features = false, features = ["json", "multipart", "query", "stream"] }
ron = "=0.12.2"
serde = { version = "=1.0.229", features = ["derive"] }
serde_json = "=1.0.151"
tokio = { version = "=1.53.2", features = ["fs", "macros", "net", "rt", "time"] }
tokio-tungstenite = "=0.30.0"
uuid = { version = "=1.27.0", features = ["v4"] }
