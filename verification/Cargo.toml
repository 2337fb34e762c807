[package]
name = "aranet4"
version = "0.1.0"
edition = "2021"
publish = false

[dependencies]
btleplug = "=0.13.4"
libdbus-sys = { version = "=0.2.7", default-features = false, features = ["vendored"] }
thiserror = "=2.0.21"
tokio-stream = "=0.1.19"
uuid = "=1.27.0"
