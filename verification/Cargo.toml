[package]
name = "synora"
version = "0.1.0"
edition = "2021"
publish = false

[dependencies]
anchor-lang = { version = "=0.31.2", features = ["init-if-needed"] }
switchboard-on-demand = { version = "=0.13.0", default-features = false, features = ["solana-v2"] }
