[package]
name = "acso7"
version = "0.1.0"
edition = "2021"
publish = false

[dependencies]
brotli = "=9.1.1"
fastrand = "=2.5.0"
jiff = { version = "=0.2.43", features = ["serde"] }
ratatui = "=0.30.2"
rmp-serde = "=1.3.1"
serde = { version = "=1.0.229", features = ["derive"] }
strum = { version = "=0.28.0", features = ["derive"] }
tachyonfx = "=0.25.2"
thiserror = "=2.0.21"
