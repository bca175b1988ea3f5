[package]
name = "blut_cookbooks"
version = "0.1.0"
edition = "2021"
publish = false

[dependencies]
anyhow = "1"
async-trait = "0.1"
blut = "=0.2.0-alpha.1"
dirs = "*"
nix = { version = "*", features = ["signal"] }
parking_lot = "0.12"
rand = "0.8"
schemars = "0.8"
serde = { version = "1", features = ["derive"] }
serde_json = "1"
tempfile = "3"
thiserror = "*"
tokio = { version = "1", features = ["full"] }
tracing = "0.1"
which = "*"
