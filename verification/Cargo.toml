[package]
name = "one_kx_hook"
version = "0.1.0"
edition = "2021"
publish = false

[dependencies]
anchor-lang = "=0.31.2"
anchor-spl = { version = "=0.31.2", features = ["token_2022"] }
spl-tlv-account-resolution = "=0.11.4"
spl-token-2022 = "=11.1.0"
spl-transfer-hook-interface = "=2.1.0"
