[package]
name = "keygate_vault"
version = "0.1.0"
edition = "2021"
publish = false

[dependencies]
candid = "=0.10.22"
ic-cdk = "=0.17.2"
ic-ledger-types = "=0.14.0"
icrc-ledger-types = "=0.2.0"
b3_utils = { version = "=0.13.1", features = ["ledger"] }
serde = "=1.0.229"
serde_bytes = "=0.11.19"

[dev-dependencies]
ed25519-dalek = "=2.2.0"
rand = "=0.8.8"
