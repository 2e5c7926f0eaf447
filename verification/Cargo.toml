[package]
name = "vrf_engine"
version = "0.1.0"
edition = "2021"
publish = false

[dependencies]
ark-vrf = { version = "=0.5.3", features = ["bandersnatch", "ring"] }
ark-ec = "=0.6.0"
ark-ff = "=0.6.0"
w3f-pcs = "=0.0.7"
w3f-plonk-common = "=0.0.10"
w3f-ring-proof = "=0.0.10"
ed25519-consensus = "=2.1.0"
lru = "=0.18.5"
sha2 = "=0.10.9"

[dev-dependencies]
rand = "0.8"
