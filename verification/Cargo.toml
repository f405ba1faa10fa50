[package]
name = "gem_installer"
version = "0.1.0"
edition = "2021"
publish = false

[dependencies]
regex = "*"
flate2 = "*"
tar = "*"
serde = { version = "*", features = ["derive"] }
reqwest = { version = "*", default-features = false, features = ["json"] }
tokio = { version = "*", features = ["rt", "rt-multi-thread", "macros", "fs", "sync", "io-util"] }
futures = "*"
