[package]
name = "cio_sync"
version = "0.1.0"
edition = "2021"
publish = false

[dependencies]
barcoders = { version = "*", features = ["image", "svg"] }
names = { version = "*", default-features = false }
reqwest = { version = "*", default-features = false, features = ["rustls-tls", "json"] }
tokio = { version = "*", features = ["rt-multi-thread", "macros"] }
serde = { version = "*", features = ["derive"] }
serde_json = "*"
clap = { version = "*", features = ["derive"] }
