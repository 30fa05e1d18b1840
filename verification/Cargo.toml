[package]
name = "dao_sdk"
version = "0.1.0"
edition = "2021"
publish = false

[dependencies]
async-trait = "=0.1.92"
candid = "0.8.4"
ic-cdk = "0.9.4"
serde = { version = "=1.0.229", features = ["derive"] }
