[package]
name = "aspen"
version = "0.1.0"
edition = "2021"
publish = false

[dependencies]
scc = "*"
crossbeam = "*"
fasthash = "*"
serde = { version = "*", features = ["derive"] }
bincode = "1"
tokio = { version = "*", features = ["rt-multi-thread", "macros", "sync", "time", "net"] }
tarpc = { version = "*", features = ["full"] }
uuid = { version = "*", features = ["v4"] }
rand = "*"
futures = "*"
