[package]
name = "uefi_vm"
version = "0.1.0"
edition = "2021"
publish = false

[dependencies]
serde_json = "*"
clap = { version = "*", features = ["derive"] }
dunce = "*"
tokio = { version = "*", features = ["rt-multi-thread", "macros", "io-std", "io-util", "net", "time", "sync"] }
hcs-rs = "*"
winapi = "*"
