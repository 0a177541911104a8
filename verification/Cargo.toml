[package]
name = "chord"
version = "0.1.0"
edition = "2021"
publish = false

[dependencies]
dirs = "5"
url = "2"
uuid = { version = "1", features = ["v4"] }
serde = { version = "1", features = ["derive"] }
serde_json = "1"
thiserror = "1"
chrono = "0.4"
tokio = { version = "1", features = ["full"] }
rusqlite = { version = "0.31", features = ["bundled"] }
reqwest = { version = "0.12", default-features = false, features = ["json", "stream", "rustls-tls"] }
futures-util = "0.3"
sysinfo = "0.33"
zip = "2"
tar = "0.4"
xz2 = "0.1"
