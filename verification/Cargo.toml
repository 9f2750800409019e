[package]
name = "image_pda"
version = "0.1.0"
edition = "2021"
publish = false

[dependencies]
solana-pubkey = { version = "2", features = ["curve25519"] }
solana-keypair = "2"
solana-signer = "2"
solana-instruction = "2"
solana-transaction = { version = "2", features = ["bincode"] }
solana-rpc-client = { version = "2.3", default-features = false }

[dev-dependencies]
bincode = "=1.3.3"
