[package]
name = "http_gpio"
version = "0.1.0"
edition = "2021"
publish = false

[dependencies]
gpio-cdev = "=0.6.0"
lazy_static = "=1.5.1"
serde = { version = "=1.0.229", features = ["derive"] }
tokio = { version = "=1.53.2", features = ["macros", "rt-multi-thread"] }
warp = { version = "=0.4.3", features = ["server"] }
