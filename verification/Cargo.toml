[package]
name = "psbt_schema"
version = "0.1.0"
edition = "2021"
publish = false

[dependencies]
bitcoins = "=0.2.2"
coins-bip32 = "=0.2.2"
coins-core = "=0.2.2"
