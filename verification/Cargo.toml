[package]
name = "confetti"
version = "0.1.0"
edition = "2021"
publish = false

[dependencies]
bitvec = "1"
regex = "1"
wpihal = "=1.0.0-2027.0.0-alpha-6"
thiserror = "*"
anyhow = "*"
clap = { version = "4", features = ["derive"] }
colored = "*"
fern = "*"
log = "*"
spinoff = "*"
ssh-rs = "*"
toml = "0.8"
reqwest = { version = "0.12", default-features = false, features = ["blocking", "json", "rustls-tls"] }
serde_json = "*"
dirs = "*"
indicatif = "0.17"
tempfile = "*"
flate2 = "*"
tar = "*"
zip = { version = "2", default-features = false, features = ["deflate"] }
parking_lot = "*"
derive_builder = "*"
