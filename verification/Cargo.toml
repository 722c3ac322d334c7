[package]
name = "cnft"
version = "0.1.0"
edition = "2021"
publish = false

[dependencies]
solana-sdk = "=1.18.26"
serde = { version = "1", features = ["derive"] }
serde_json = "1"

[dev-dependencies]
mpl-token-metadata = "=4.1.2"
mpl-bubblegum = "=1.4.0"
spl-token = { version = "=4.0.3", features = ["no-entrypoint"] }
spl-noop = { version = "=0.2.0", features = ["no-entrypoint"] }
