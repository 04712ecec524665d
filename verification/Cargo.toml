[package]
name = "gmsv_serverstat"
version = "0.1.0"
edition = "2021"
publish = false

[dependencies]
sysinfo = { version = "=0.30.13", default-features = false }
lazy_static = "=1.5.1"
libloading = "=0.7.4"
