[package]
name = "translator"
version = "0.1.0"
edition = "2021"
publish = false

[dependencies]
base64 = "=0.13.1"
chrono = "=0.4.45"
clap = { version = "=4.6.7", features = ["derive"] }
console = "=0.16.6"
dirs = "=7.0.0"
futures = "=0.3.34"
hex = "=0.4.3"
hmac = "=0.13.0"
md-5 = "=0.11.0"
reqwest = { version = "=0.13.5", default-features = false, features = ["query"] }
serde = { version = "=1.0.229", features = ["derive"] }
serde_json = "=1.0.151"
sha1 = "=0.11.0"
sha2 = "=0.11.0"
tokio = { version = "=1.53.2", features = ["full"] }
toml = "=1.1.7"
