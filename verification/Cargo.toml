[package]
name = "boi"
version = "0.1.0"
edition = "2021"
publish = false

[dependencies]
clap = { version = "=4.6.7", features = ["derive"] }
clap_complete = "=4.6.11"
console = "=0.16.6"
futures = "=0.3.34"
indexmap = { version = "=2.14.2", features = ["serde"] }
indicatif = { version = "=0.18.6", features = ["in_memory"] }
libc = "=0.2.191"
serde = "=1.0.229"
serde_derive = "=1.0.229"
serde_json = "=1.0.154"
signal-hook = "=0.3.18"
signal-hook-tokio = { version = "=0.3.1", features = ["futures-v0_3"] }
tokio = { version = "=1.54.1", features = ["full"] }
tokio-util = { version = "=0.7.20", features = ["io-util"] }
toml = { version = "=1.1.8", features = ["preserve_order"] }
url = "=2.5.8"
