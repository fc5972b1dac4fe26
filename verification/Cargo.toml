[package]
name = "backend"
version = "0.1.0"
edition = "2021"
publish = false

[dependencies]
ordered_hash_map = "=0.6.1"
serde = { version = "=1.0.229", features = ["derive"] }
strum = { version = "=0.27.2", features = ["derive"] }
log = "=0.4.35"
anyhow = "=1.0.104"
dioxus = { version = "=0.6.3", default-features = false, features = ["macro", "html", "signals", "hooks"] }
