[package]
name = "account_state_info"
version = "0.1.0"
edition = "2021"
publish = false

[dependencies]
solana-account = "=4.3.2"
solana-message = "=4.4.0"
solana-pubkey = "=4.2.1"
solana-rent = "=4.3.0"
solana-sdk-ids = "=3.1.0"
solana-svm-transaction = "=4.2.0"
solana-transaction-context = { version = "=4.2.2", features = ["agave-unstable-api"] }
solana-transaction-error = "=3.3.2"

[dev-dependencies]
solana-hash = "=4.7.0"
solana-keypair = "=3.1.2"
solana-signer = "=3.0.1"
