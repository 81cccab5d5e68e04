[package]
name = "porkbun_ddns"
version = "0.1.0"
edition = "2021"
publish = false

[dependencies]
reqwest = { version = "*", default-features = false, features = ["json", "rustls-tls"] }
tokio = { version = "*", features = ["rt-multi-thread", "macros", "time"] }
serde = { version = "*", features = ["derive"] }
serde_json = "*"
dotenv = "*"
env_logger = "*"
log = "*"
