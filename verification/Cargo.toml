[package]
name = "cudyos"
version = "0.1.0"
edition = "2021"
publish = false

[dependencies]
nc = "0.8"
rtnetlink = "0.11"
tokio = { version = "1", features = ["full"] }
futures = "0.3"
log = "0.4"
simplelog = "0.12"
clap = { version = "4", features = ["derive"] }
serde = { version = "1", features = ["derive"] }
serde_json = "1"
schemars = "0.8"
wl-nl80211 = "*"
