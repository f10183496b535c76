[package]
name = "solana-staking"
version = "0.1.0"
edition = "2021"
publish = false

[dependencies]
anchor-lang = "=0.27.0"
anchor-spl = { version = "=0.27.0", default-features = false, features = ["token", "associated_token"] }
mpl-token-metadata = { version = "=1.13.1", features = ["no-entrypoint"] }
mpl-token-auth-rules = { version = "=1.3.0", features = ["no-entrypoint"] }
borsh = "=0.9.3"
solana-program = ">=1.14, <1.16"
