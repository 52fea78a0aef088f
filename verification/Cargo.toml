[package]
name = "gpio_cdev"
version = "0.1.0"
edition = "2021"
publish = false

[dependencies]
futures = "0.3"
libc = "0.2"
nix = "0.23"
tokio = { version = "1", features = ["net"] }
