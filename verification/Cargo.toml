[package]
name = "mcinstall"
version = "0.1.0"
edition = "2021"
publish = false

[dependencies]
serde_json = "1"
sha1 = "0.10"
dirs = "*"
os_info = "*"
