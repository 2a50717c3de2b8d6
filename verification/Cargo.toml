[package]
name = "gauge_poll"
version = "0.1.0"
edition = "2021"
publish = false

[dependencies]
rand = "0.9"
serialport = { version = "4", default-features = false }
serde = { version = "1", features = ["derive"] }
thiserror = "2"
tokio = { version = "1", features = ["time", "rt"] }
async-compat = "0.2"
slint = { version = "1", default-features = false, features = ["std", "compat-1-2"] }
