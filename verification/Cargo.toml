[package]
name = "rsraw"
version = "0.1.0"
edition = "2021"
publish = false

[dependencies]
libraw-sys = "*"
serde = { version = "*", features = ["derive"] }
