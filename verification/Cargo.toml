[package]
name = "io-gmail"
version = "0.1.0"
edition = "2021"
publish = false

[dependencies]
anyhow = "1"
base64 = "0.22"
io-http = "*"
log = "0.4"
pimalaya-stream = "*"
secrecy = "*"
serde = { version = "1", features = ["derive"] }
serde_json = "1"
serde_variant = "*"
thiserror = "*"
url = "2"
