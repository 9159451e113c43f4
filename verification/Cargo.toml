[package]
name = "dhcp4"
version = "0.1.0"
edition = "2021"
publish = false

[dependencies]
rand = "0.8"
ascii = "1"
macaddr = "1"
serde = { version = "1", features = ["derive"] }
