[package]
name = "tower_msgs"
version = "0.1.0"
edition = "2021"
publish = false

[dependencies]
bitcoin = "0.27"
lightning = "0.0.106"
