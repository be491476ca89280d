[package]
name = "fastly"
version = "0.1.0"
edition = "2021"
publish = false

[dependencies]
anyhow = "1"
bitflags = "1"
bytes = "1"
http = "0.2"
lazy_static = "1"
mime = "0.3"
serde = { version = "1", features = ["derive"] }
serde_json = "1"
serde_urlencoded = "0.7"
sha2 = "0.10"
thiserror = "1"
time = "0.3"
url = "2"
