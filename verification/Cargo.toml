[package]
name = "gelf"
version = "0.1.0"
edition = "2021"
publish = false

[dependencies]
hostname = "0.1"
libflate = "0.1"
log = "0.3"

[dev-dependencies]
serde_json = "1"
