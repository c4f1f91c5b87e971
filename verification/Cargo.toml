[package]
name = "alloyport"
version = "0.1.0"
edition = "2021"
publish = false

[dependencies]
prost = "0.14"
rcgen = "0.13"
reqwest = { version = "0.12", default-features = false, features = ["rustls-tls"] }
rusqlite = { version = "0.37", features = ["bundled"] }
rustls-pemfile = "2"
serde = { version = "1", features = ["derive"] }
serde_json = "1"
sha2 = "0.10"
tokio = { version = "1", features = ["full"] }
tokio-stream = "0.1"
tonic = { version = "0.14", features = ["tls-ring"] }

[dev-dependencies]
tempfile = "3"
