[package]
name = "objstore"
version = "0.1.0"
edition = "2021"
publish = false

[dependencies]
ordermap = "*"
serde_json = "*"
serde = { version = "*", features = ["derive"] }
tokio = { version = "*", features = ["fs", "io-util"] }
async-trait = "*"
anyhow = "*"
url = "*"
sqlx = { version = "*", default-features = false, features = ["postgres", "runtime-tokio"] }
