[package]
name = "soroban_sas"
version = "0.1.0"
edition = "2021"
publish = false

[dependencies]
soroban-sdk = "29"
ed25519-dalek = "=2.2.0"
stellar-strkey = "=1.0.0"
hex = "=0.4.3"
serde = { version = "1", features = ["derive"] }
serde_json = "1"
ureq = { version = "=2.12.1", features = ["json"] }
clap = { version = "=4.6.7", features = ["derive", "env"] }
