[package]
name = "ytx_provision"
version = "0.1.0"
edition = "2021"
publish = false

[dependencies]
url = "*"
postgres = "*"
reqwest = { version = "*", default-features = false, features = ["blocking", "json"] }
serde_json = "*"
dotenvy = "*"
anyhow = "*"
