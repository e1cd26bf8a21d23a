[package]
name = "restaurant_reviews"
version = "0.1.0"
edition = "2021"
publish = false

[dependencies]
anyhow = "=1.0.104"
argon2 = "=0.5.3"
base64 = "=0.13.1"
bytes = "=1.12.1"
chrono = "=0.4.45"
ed25519-dalek = "=1.0.1"
once_cell = "=1.21.4"
rand_core = { version = "=0.5.1", features = ["getrandom"] }
rust-crypto = "=0.2.36"
serde = { version = "=1.0.229", features = ["derive"] }
thiserror = "=1.0.69"
tokio = { version = "=1.54.1", features = ["macros", "rt-multi-thread", "sync"] }
tracing-subscriber = { version = "=0.3.23", features = ["env-filter"] }
warp = "=0.3.7"
