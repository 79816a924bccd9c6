[package]
name = "sxg_proxy"
version = "0.1.0"
edition = "2021"
publish = false

[dependencies]
url = "=2.5.8"
clap = { version = "4", features = ["derive"] }
http = "0.2"
hyper = { version = "0.14", features = ["full"] }
hyper-reverse-proxy = "0.5"
hyper-trust-dns = "0.5"
lazy_static = "1"
tokio = { version = "1", features = ["macros", "rt-multi-thread"] }
