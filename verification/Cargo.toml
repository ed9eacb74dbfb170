[package]
name = "but"
version = "0.1.0"
edition = "2021"
publish = false

[dependencies]
anyhow = "=1.0.104"
bstr = "=1.13.1"
gix = { version = "=0.90.0", default-features = false, features = ["sha1"] }
ratatui = { version = "=0.30.2", default-features = false }
serde = { version = "1", features = ["derive"] }
serde_json = "1"
