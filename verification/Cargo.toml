[package]
name = "sol_relay"
version = "0.1.0"
edition = "2021"
publish = false

[dependencies]
anyhow = "*"
borsh = "*"
bs58 = "*"
clap = { version = "*", features = ["derive"] }
serde = { version = "*", features = ["derive"] }
serde_json = "*"
serde_yaml = "*"
solana-sdk = "*"
tokio = { version = "*", features = ["macros", "rt-multi-thread", "time"] }
tokio-stream = "*"
