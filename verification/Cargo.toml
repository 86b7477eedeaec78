[package]
name = "pgpt"
version = "0.1.0"
edition = "2021"
publish = false

[dependencies]
anyhow = "1"
chacha20poly1305 = "0.10"
clap = { version = "4", features = ["derive"] }
colored = "2"
directories = "5"
indicatif = "0.17"
pbkdf2 = "0.12"
rand = "0.8"
reqwest = { version = "0.11", features = ["blocking", "json"] }
serde = { version = "1", features = ["derive"] }
serde_json = "1"
sha2 = "0.10"
termimad = "*"
whoami = "1"
