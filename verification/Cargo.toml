[package]
name = "astria_sequencer"
version = "0.1.0"
edition = "2021"
publish = false

[dependencies]
regex = "=1.13.1"
sha2 = "=0.10.9"
hex = "=0.4.3"
base64 = "=0.22.1"
quick_cache = "=0.7.0"
humantime = "=2.4.0"
bech32 = "0.11"
serde = { version = "1", features = ["derive"] }
serde_json = "1"
clap = { version = "4", features = ["derive"] }
