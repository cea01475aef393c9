[package]
name = "plant_cam"
version = "0.1.0"
edition = "2021"
publish = false

[dependencies]
chrono = "0.4"
confy = "*"
serde = { version = "*", features = ["derive"] }
nokhwa = { version = "0.9", default-features = false }
image = { version = "0.24", default-features = false, features = ["jpeg"] }
log = "*"
simple_logger = "*"
rust-s3 = { version = "*", default-features = false, features = ["tokio-rustls-tls"] }
aws-creds = "*"
tokio = { version = "*", features = ["macros", "rt-multi-thread"] }
