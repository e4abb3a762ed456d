[package]
name = "season_vault"
version = "0.1.0"
edition = "2021"
publish = false

[dependencies]
anchor-lang = { version = "0.29.0", features = ["init-if-needed"] }
anchor-spl = "0.29.0"
borsh = "0.10.3"
spl-stake-pool = { version = "1.0.0", features = ["no-entrypoint"] }
