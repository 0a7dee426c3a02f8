[package]
name = "vp_proxy"
version = "0.1.0"
edition = "2021"
publish = false

[dependencies]
candid = "=0.10.37"
icrc-ledger-types = "=0.2.0"
serde = "1"
