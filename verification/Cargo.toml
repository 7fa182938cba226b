[package]
name = "sys_build"
version = "0.1.0"
edition = "2021"
publish = false

[dependencies]
log = "0.4"
pkg-config = "0.3"
serde = { version = "1", features = ["derive"] }
vcpkg = "0.2"
