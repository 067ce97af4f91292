[package]
name = "snp_attestation"
version = "0.1.0"
edition = "2021"
publish = false

[dependencies]
alloy-primitives = "*"
alloy-sol-types = "*"
tiny-keccak = { version = "*", features = ["keccak"] }
bincode = "1"
sev = "*"
serde = { version = "*", features = ["derive"] }
serde_json = "*"
clap = { version = "4", features = ["derive", "env"] }
rand = "0.8"
sysinfo = "*"
tokio = { version = "1", features = ["rt-multi-thread"] }
crossbeam = "*"
