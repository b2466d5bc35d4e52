[package]
name = "inventory_store"
version = "0.1.0"
edition = "2021"
publish = false

[dependencies]
candid = "0.10"
ic-cdk = "0.12"
ic-stable-structures = "0.5"
serde = { version = "1", features = ["derive"] }
