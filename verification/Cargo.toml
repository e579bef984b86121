[package]
name = "proposal_store"
version = "0.1.0"
edition = "2021"
publish = false

[dependencies]
ic-stable-structures = "=0.5.6"
candid = "=0.9.11"
ic-cdk = "=0.10.2"
serde = "1"
