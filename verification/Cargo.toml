[package]
name = "ifdyndnsd"
version = "0.1.0"
edition = "2021"
publish = false

[dependencies]
base64 = "=0.23.1"
cidr = "=0.3.2"
env_logger = "*"
futures = "*"
hickory-client = { version = "=0.25.2", features = ["dnssec-ring"] }
hmac = "=0.13.0"
log = "*"
netlink-packet-core = "=0.9.0"
netlink-packet-route = "=0.33.0"
netlink-sys = "=0.9.0"
rtnetlink = "=0.23.0"
serde = "*"
serde_derive = "*"
sha2 = "=0.11.0"
tokio = { version = "=1.53.2", features = ["macros", "rt", "rt-multi-thread", "time", "sync", "net"] }
toml = "*"
