[package]
name = "udp_tunnel_core"
version = "0.1.0"
edition = "2021"
publish = false

[dependencies]
hex = "*"
playit-agent-proto = "*"
message-encoding = "*"
tokio = { version = "*", features = ["net", "time", "rt", "macros"] }
