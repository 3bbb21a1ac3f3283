[package]
name = "audit_ledger"
version = "0.1.0"
edition = "2021"
publish = false

[dependencies]
candid = "0.10"
sha2 = "0.10"
ic-stable-structures = "0.6"
ic-cdk = "0.13"
ic-cdk-macros = "0.13"
serde = { version = "1", features = ["derive"] }
