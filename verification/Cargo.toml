[package]
name = "studifi_finance"
version = "0.1.0"
edition = "2021"
publish = false

[dependencies]
candid = "*"
ic-cdk = "*"
ic-cdk-timers = "*"
ic-stable-structures = "*"
serde = { version = "1", features = ["derive"] }
serde_json = "1"
thiserror = "*"
