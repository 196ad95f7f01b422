[package]
name = "ifaddr"
version = "0.1.0"
edition = "2021"
publish = false

[dependencies]
anyhow = "=1.0.104"
ifstructs = "=0.1.1"
libc = "=0.2.190"
log = "=0.4.34"
nix = { version = "=0.31.3", features = ["ioctl", "socket"] }
simple_logger = "=5.2.0"
structopt = "=0.3.26"
