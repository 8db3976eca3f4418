[package]
name = "modius"
version = "0.1.0"
edition = "2021"
publish = false

[dependencies]
async-channel = "=2.5.0"
chrono = { version = "=0.4.45", features = ["serde"] }
libp2p = { version = "=0.54.1", features = ["tokio", "tcp", "noise", "yamux", "relay", "rendezvous", "mdns", "upnp", "identify", "ping", "macros", "ed25519", "serde"] }
libp2p-stream = "=0.2.0-alpha"
serde = { version = "=1.0.229", features = ["derive"] }
serde_json = "=1.0.154"
tokio = { version = "=1.54.1", features = ["rt", "rt-multi-thread", "macros", "time"] }
