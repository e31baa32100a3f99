[package]
name = "onehistory"
version = "0.4.0"
edition = "2021"
publish = false

[dependencies]
anyhow = "=1.0.104"
clap = { version = "=4.6.7", features = ["cargo"] }
indicatif = "=0.17.11"
log = "=0.4.35"
mime_guess = "=2.0.5"
minijinja = "=2.24.0"
rust-embed = { version = "=8.13.0", features = ["interpolate-folder-path"] }
serde = { version = "=1.0.229", features = ["derive"] }
serde_derive = "=1.0.229"
tempfile = "=3.27.0"
tokio = { version = "=1.54.1", features = ["rt-multi-thread"] }
uuid = { version = "=1.29.1", features = ["v4"] }
warp = "=0.3.7"
