[package]
name = "njupt_wifi_login"
version = "0.1.0"
edition = "2021"
publish = false

[dependencies]
chacha20poly1305 = "=0.11.0"
sha2 = "=0.11.0"
machine-uid = "=0.6.0"
serde_json = "=1.0.151"
chrono = "=0.4.45"
serde = { version = "=1.0.229", features = ["derive"] }
serde_yaml = "=0.9.34"
tokio = { version = "=1.53.2", features = ["rt-multi-thread", "macros", "sync", "time", "net"] }
reqwest = { version = "=0.13.5", default-features = false, features = ["query"] }
hickory-resolver = "=0.26.3"
network-interface = "=2.0.5"
rtnetlink = "=0.23.0"
netlink-packet-core = "=0.9.0"
netlink-packet-route = "=0.33.0"
netlink-sys = "=0.9.0"
futures-util = "=0.3.34"
libc = "=0.2.190"

[dev-dependencies]
hex = "=0.4.3"
