[package]
name = "stempelkarten"
version = "0.1.0"
edition = "2021"
publish = false

[dependencies]
anyhow = "=1.0.104"
chrono = "=0.4.45"
clap = { version = "=4.6.7", features = ["derive"] }
env_logger = "=0.11.11"
glob = "=0.3.4"
log = "=0.4.34"
toml = "=1.1.8"
typst = "=0.15.1"
typst-as-lib = { version = "=0.17.0", features = ["typst-kit-fonts"] }
typst-layout = "=0.15.1"
typst-pdf = "=0.15.1"

[dev-dependencies]
tempfile = "=3.27.0"
