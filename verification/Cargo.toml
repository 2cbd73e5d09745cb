[package]
name = "dantesync"
version = "0.1.0"
edition = "2021"
publish = false

[dependencies]
anyhow = "=1.0.104"
clap = { version = "=4.6.7", features = ["derive"] }
ctrlc = "=3.5.2"
env_logger = "=0.11.11"
libc = "=0.2.190"
log = "=0.4.34"
nix = { version = "=0.31.3", features = ["socket", "time", "uio"] }
pcap = "*"
rsntp = "=4.1.2"
serde = { version = "=1.0.229", features = ["derive"] }
serde_json = "=1.0.151"
socket2 = "=0.6.5"
