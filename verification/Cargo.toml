[package]
name = "minecraft_launcher_lib"
version = "0.1.0"
edition = "2021"
publish = false

[dependencies]
sha1 = "*"
serde = { version = "*", features = ["derive"] }
serde_json = "*"
tokio = { version = "*", features = ["rt-multi-thread", "macros", "fs", "process", "io-util", "sync", "time"] }
reqwest = { version = "*", default-features = false, features = ["rustls-tls", "stream"] }
futures = "*"
zip = "*"
flate2 = "*"
tar = "*"
dirs = "*"
chrono = "*"
log = "*"
env_logger = "*"
uuid = { version = "*", features = ["v4"] }
thiserror = "*"
