[package]
name = "wars_core"
version = "0.1.0"
edition = "2021"
publish = false

[dependencies]
num-rational = { version = "=0.4.2", default-features = false, features = ["std"] }
csv = "=1.4.0"
rhai = "1"
