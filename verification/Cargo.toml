[package]
name = "rfkill"
version = "0.1.0"
edition = "2021"
publish = false

[dependencies]
anyhow = "=1.0.104"
nix = "=0.26.4"
serde = { version = "=1.0.229", features = ["derive"] }
tracing = "=0.1.44"
zvariant = "=5.15.1"
