[package]
name = "fine_offset"
version = "0.1.0"
edition = "2021"
publish = false

[dependencies]
anyhow = "=1.0.104"
chrono = "=0.4.45"
clap = "=4.6.7"
crc-any = "=3.1.0"
dirs = "=7.0.0"
flexi_logger = "=0.31.10"
keyring = { version = "=3.6.3", default-features = false }
log = "=0.4.34"
rpassword = "=7.5.4"
serde = { version = "=1.0.229", features = ["derive"] }
serde_json = "=1.0.151"
thiserror = "=2.0.21"
uom = "=0.38.0"
