[package]
name = "kuruvoice"
version = "0.1.0"
edition = "2021"
publish = false

[dependencies]
anyhow = "1"
clap = { version = "4", features = ["derive"] }
env_logger = "0.11"
hound = "3.5"
log = "0.4"
ringbuf = "0.3"
rubato = "0.15"
rustfft = "6"
serde = { version = "1", features = ["derive"] }
thiserror = "1"
toml = "0.8"
