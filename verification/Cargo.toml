[package]
name = "movie_ratings"
version = "0.1.0"
edition = "2021"
publish = false

[dependencies]
pinocchio = "*"
pinocchio-system = "*"
pinocchio-token = "*"
pinocchio-associated-token-account = "*"
solana-pubkey = { version = "*", features = ["sha2", "curve25519"] }
