[package]
name = "luxbin_core"
version = "0.1.0"
edition = "2021"
publish = false

[dependencies]
sha3 = "=0.10.9"
sp-core = { version = "=43.0.0", default-features = false }
parity-scale-codec = { version = "=3.7.5", default-features = false, features = ["derive", "max-encoded-len"] }
scale-info = { version = "=2.11.6", default-features = false, features = ["derive"] }
