[package]
name = "secret_snails_minter"
version = "0.1.0"
edition = "2021"
publish = false

[dependencies]
base64 = "0.13"
rand = "0.7"
rand_chacha = "0.2"
sha2 = "0.9"
secret-toolkit = { version = "*", default-features = false, features = ["crypto"] }
secret-toolkit-crypto = { version = "*", features = ["hash", "rand"] }
serde = { version = "1", features = ["derive"] }
serde_json = "1"
