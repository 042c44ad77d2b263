[package]
name = "rust_wiki"
version = "0.1.0"
edition = "2021"
publish = false

[dependencies]
num-format = "=0.4.4"
csv = "=1.4.0"
serde = { version = "=1.0.229", features = ["derive"] }
serde_json = "=1.0.154"
similar = "=2.7.0"
http = "=1.5.0"
ureq = { version = "=2.12.1", default-features = false }
regex = "1"
