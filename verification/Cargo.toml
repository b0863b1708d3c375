[package]
name = "msger"
version = "0.1.0"
edition = "2021"
publish = false

[dependencies]
anyhow = "=1.0.104"
base64 = "=0.22.1"
clap = { version = "=4.6.7", default-features = false, features = ["derive", "std", "help", "usage", "error-context"] }
derivative = "=2.2.0"
env_logger = { version = "0.10", default-features = false }
futures = "=0.3.34"
humantime = "=2.4.0"
iced = { version = "=0.13.1", default-features = false, features = ["tokio"] }
iced_aw = { version = "=0.11.0", default-features = false, features = ["card"] }
log = "=0.4.34"
rfd = { version = "=0.15.4", default-features = false, features = ["xdg-portal", "tokio"] }
serde = { version = "=1.0.229", features = ["derive"] }
serde_json = "=1.0.154"
simple_crypt = "=0.2.3"
size = "=0.4.1"
thiserror = "=1.0.69"
tokio = { version = "=1.54.1", features = ["rt-multi-thread", "net", "sync"] }
tokio-tungstenite = "=0.24.0"
toml = "=0.8.23"
