[package]
name = "doom_nft_program"
version = "0.1.0"
edition = "2021"
publish = false

[dependencies]
url = "*"
anchor-lang = "*"
mpl-core = "*"
anyhow = "*"
clap = { version = "*", features = ["derive"] }
