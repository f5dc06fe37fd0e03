[package]
name = "groups_relay"
version = "0.1.0"
edition = "2021"
publish = false

[dependencies]
anyhow = "1"
async-trait = "0.1"
nostr-sdk = "0.45"
tokio-util = "0.7"
