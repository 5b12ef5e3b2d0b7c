[package]
name = "rrrocket"
version = "0.1.0"
edition = "2021"
publish = false

[dependencies]
boxcars = "=0.12.0"
rawzip = "=0.5.2"
libdeflater = "=1.26.1"
serde_json = "=1.0.151"
serde = { version = "=1.0.229", features = ["derive"] }
anyhow = "=1.0.104"
clap = { version = "=4.6.7", features = ["derive"] }
glob = "=0.3.4"
memmap2 = "=0.9.11"
rayon = "=1.12.0"
