[package]
name = "icp_transport"
version = "0.1.0"
edition = "2021"
publish = false

[dependencies]
alloy-json-rpc = "*"
candid = "*"
ic-cdk = "*"
serde = { version = "*", features = ["derive"] }
serde_json = "*"
tower = "*"
