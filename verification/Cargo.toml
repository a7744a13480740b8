[package]
name = "binsign"
version = "0.1.0"
edition = "2021"
publish = false

[dependencies]
blake3 = { version = "1", features = ["rayon"] }
clap = { version = "4", features = ["derive"] }
clap_complete = "4"
curve25519-dalek = { version = "4", features = ["digest"] }
ed25519-dalek = { version = "2", features = ["digest", "pkcs8", "rand_core", "serde"] }
log = "0.4"
pretty_env_logger = "0.5"
rand = "0.8"
rand_chacha = "0.3"
thiserror = "1"
zstd = "0.13"

[dev-dependencies]
bincode = "1.3"
serde_bytes = "0.11"
