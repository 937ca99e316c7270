[package]
name = "nft_collection"
version = "0.1.0"
edition = "2021"
publish = false

[dependencies]
anchor-lang = { version = "0.28", features = ["init-if-needed"] }
anchor-spl = "0.28"
mpl-token-metadata = "3"
