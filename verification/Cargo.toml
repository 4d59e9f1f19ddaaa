[package]
name = "herp_node"
version = "0.1.0"
edition = "2021"
publish = false

[dependencies]
actix-web = "4"
awc = "3"
confy = "*"
serde = { version = "1", features = ["derive"] }
serde_json = "1"
