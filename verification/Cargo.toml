[package]
name = "ingl_gems"
version = "0.1.0"
edition = "2021"
publish = false

[dependencies]
borsh = "0.9"
mpl-token-metadata = { version = "~1.3", features = ["no-entrypoint"] }
num-traits = "0.2"
solana-program = "~1.10"
spl-associated-token-account = { version = "~1.0.5", features = ["no-entrypoint"] }
spl-token = { version = "3.3", features = ["no-entrypoint"] }
switchboard-v2 = "0.1"
