[package]
name = "bankineco_amm"
version = "0.1.0"
edition = "2021"
publish = false

[dependencies]
anchor-spl = "=1.2.1"
anyhow = "=1.0.104"
bankineco-helpers = "=0.1.5"
bytemuck = "=1.25.2"
jupiter-amm-interface = "=0.6.1"
rust_decimal = "=1.43.0"
# Held below 4.3: the newer releases need a newer rustc than this crate's
# toolchain, and cargo refuses the whole build when one is selected.
solana-account-decoder = { version = ">=2, <4.3", features = ["agave-unstable-api"] }
solana-pubkey = { version = "=4.4.0", features = ["curve25519"] }
solana-sdk = "=4.1.0"
