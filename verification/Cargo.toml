[package]
name = "anchor_spl_amm"
version = "0.1.0"
edition = "2021"
publish = false

[dependencies]
fixed = "1"
anchor-lang = { version = "0.29.0", features = ["init-if-needed"] }
anchor-spl = "0.29.0"
