[package]
name = "auction_house"
version = "0.1.0"
edition = "2021"
publish = false

[dependencies]
anchor-lang = "0.24.2"
anchor-spl = "0.24.2"
solana-program = "1.9"
spl-token = { version = "3.3", features = ["no-entrypoint"] }
spl-associated-token-account = { version = "1.0", features = ["no-entrypoint"] }
mpl-token-metadata = { version = "1.2", features = ["no-entrypoint"] }
