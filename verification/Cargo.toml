[package]
name = "ibc_core"
version = "0.1.0"
edition = "2021"
publish = false

[dependencies]
sha2 = "=0.11.0"
ibc-proto = "=0.52.0"
ics23 = { version = "=0.12.0", features = ["host-functions"] }
borsh = { version = "=1.8.1", features = ["derive"] }
serde = { version = "=1.0.229", features = ["derive"] }
