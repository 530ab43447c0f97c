[package]
name = "satspath"
version = "0.1.0"
edition = "2021"
publish = false

[dependencies]
sha2 = "0.10"
hex = "0.4"
secp256k1 = { version = "0.29", features = ["rand-std"] }
rand = "0.8"
base64 = "0.22"
url = "2"
bitcoin = "0.32"
chrono = "0.4"
uuid = { version = "1", features = ["v4"] }
serde = { version = "1", features = ["derive"] }
serde_json = "1"
canonical_json = "*"
thiserror = "1"
async-trait = "0.1"
tokio = { version = "1", features = ["macros", "rt-multi-thread"] }
reqwest = { version = "0.12", features = ["json"] }
clap = { version = "4", features = ["derive"] }
qrcode = "0.14"
anyhow = "1"
