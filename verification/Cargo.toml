[package]
name = "nat_lab"
version = "0.1.0"
edition = "2021"
publish = false

[dependencies]
anyhow = "=1.0.104"
blake2b_simd = "=1.0.5"
iroh = { version = "=1.1.0", default-features = false, features = ["tls-ring"] }
iroh-relay = { version = "=1.1.0", default-features = false, features = ["test-utils", "tls-ring"] }
patchbay = { version = "=0.7.0", default-features = false }
serde_json = "=1.0.154"
tokio = { version = "=1.54.1", features = ["io-util", "macros", "process", "rt", "sync", "time"] }
tracing-subscriber = { version = "=0.3.23", features = ["env-filter"] }
