[package]
name = "game_store"
version = "0.1.0"
edition = "2021"
publish = false

[dependencies]
anchor-lang = "=1.2.2"
anchor-spl = { version = "=1.2.2", default-features = false, features = ["solana-v3", "token", "token_2022"] }
sha2 = "=0.11.1"
quasar-lang = "=0.0.0"
quasar-spl = "=0.0.0"
