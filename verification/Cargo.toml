[package]
name = "upshift_vault"
version = "0.1.0"
edition = "2021"
publish = false

[dependencies]
anchor-lang = "0.31.1"
anchor-spl = { version = "0.31.1", features = ["metadata"] }
mpl-token-metadata = "5"
solana-security-txt = "1.1.1"
