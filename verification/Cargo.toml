[package]
name = "swiftnav"
version = "0.1.0"
edition = "2021"
publish = false

[dependencies]
swiftnav-sys = "=0.10.0"
nalgebra = { version = "=0.35.0", features = ["serde-serialize"] }
chrono = "=0.4.45"
serde = { version = "=1.0.229", features = ["derive"] }
thiserror = "=2.0.21"
strum = { version = "=0.28.0", features = ["derive"] }
bon = "=3.10.3"
