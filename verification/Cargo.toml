[package]
name = "amvideo"
version = "0.1.0"
edition = "2021"
publish = false

[dependencies]
anyhow = "1"
static_assertions = "1"
winapi = { version = "0.3", features = ["libloaderapi", "minwindef"] }
winreg = "*"
