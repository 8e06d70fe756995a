[package]
name = "powchain"
version = "0.1.0"
edition = "2021"
publish = false

[dependencies]
serde = { version = "1", features = ["derive"] }
serde_json = "=1.0.151"
sha2 = "=0.10.9"
hex = "=0.4.3"
chrono = "=0.4.45"
log = "0.4"
pretty_env_logger = "0.5"
once_cell = "1"
tokio = { version = "1", features = ["full"] }
libp2p = { version = "=0.56.0", features = ["tokio", "tcp", "noise", "yamux", "macros", "mdns", "floodsub", "ed25519"] }
