[package]
name = "lpmng"
version = "0.1.0"
edition = "2021"
publish = false

[dependencies]
regex = "*"
serde_json = "*"
serde = { version = "*", features = ["derive"] }
tokio = { version = "*", features = ["rt-multi-thread", "macros"] }
futures = "*"
rtnetlink = "*"
netlink-packet-route = "*"
