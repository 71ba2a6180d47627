[package]
name = "smbc"
version = "0.1.0"
edition = "2021"
publish = false

[dependencies]
chrono = { version = "0.4", default-features = false, features = ["std"] }
lazy_static = "1"
libc = "0.2"
log = "0.4"
nix = { version = "0.29", features = ["fs"] }
percent-encoding = "2"
smbclient-sys = "*"
