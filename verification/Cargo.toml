[package]
name = "scb_backup"
version = "0.1.0"
edition = "2021"
publish = false

[dependencies]
flate2 = "*"
zstd = "*"
chrono = "*"
serde = { version = "*", features = ["derive"] }
serde_json = "*"
toml = "*"
anyhow = "*"
log = "*"
tokio = { version = "*", features = ["full"] }
futures = "*"
async-trait = "*"
cln-plugin = "*"
cln-rpc = "*"
reqwest_dav = "*"
rust-s3 = "*"
