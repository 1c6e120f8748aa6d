[package]
name = "udp_tunnel"
version = "0.1.0"
edition = "2021"
publish = false

[dependencies]
rand = "*"
tokio = { version = "*", features = ["macros", "net", "rt", "rt-multi-thread", "sync", "time"] }
futures = "*"
socket2 = "*"
url = "*"
dashmap = "*"
