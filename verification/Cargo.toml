[package]
name = "airhaum"
version = "0.1.0"
edition = "2021"
publish = false

[dependencies]
log = { version = "=0.4.35", features = ["std"] }
chrono = { version = "=0.4.45", default-features = false, features = ["clock"] }
libc = "=0.2.191"
i2cdev = "=0.6.2"
serialport = { version = "=4.10.1", default-features = false }
tokio = { version = "=1.54.1", default-features = false, features = ["sync", "rt", "macros"] }
