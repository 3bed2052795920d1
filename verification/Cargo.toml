[package]
name = "arweave_rs"
version = "0.1.0"
edition = "2021"
publish = false

[dependencies]
data-encoding = "2"
jsonwebkey = { version = "0.3", features = ["pkcs-convert"] }
rand = "0.8"
reqwest = { version = "0.11", default-features = false, features = ["json", "rustls-tls"] }
rsa = "0.5"
serde = { version = "1", features = ["derive"] }
serde_json = "1"
sha2 = "0.9"
tokio = { version = "1", features = ["macros", "rt-multi-thread", "time"] }
url = "2"
