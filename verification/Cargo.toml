[package]
name = "lnp_addr"
version = "0.1.0"
edition = "2021"
publish = false

[dependencies]
internet2 = "=0.9.0"
lnp2p = { version = "=0.9.2", features = ["bifrost"] }
strict_encoding = "=0.9.0"
