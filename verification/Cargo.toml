[package]
name = "celo_relayer"
version = "0.1.0"
edition = "2021"
publish = false

[dependencies]
rlp = "*"
hex = "=0.4.3"
web3 = { version = "=0.19.0", default-features = false, features = ["ws-tokio"] }
tokio = { version = "1", features = ["rt", "rt-multi-thread"] }
crossbeam-channel = "*"
futures = "*"
url = "*"
serde = { version = "*", features = ["derive"] }
serde_json = "*"
chrono = "*"
prost = "*"
bytes = "*"
